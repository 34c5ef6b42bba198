//! The control family (`nlctrl`, numeric id 16): the family through which
//! all other generic netlink families are resolved by name.

pub mod attrs;
pub mod family;
pub mod mcast;
pub mod ops;
