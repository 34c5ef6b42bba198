//! A verified client-side codec for Linux Generic Netlink.
//!
//! The crate converts between raw socket bytes and typed attribute trees for
//! dynamically registered kernel protocol families.  Its core is the generic
//! type-length-value attribute codec: records with alignment padding, nesting,
//! and a positional-list encoding, together with the four-byte generic header,
//! the outer message envelope, and the client-side reassembly of a receive
//! buffer into discrete messages.  Two families are bound to the codec: the
//! control family (`ctrl`) and the devlink family (`devlink`).
//!
//! All byte layouts are stated as specification functions over `Seq<u8>`, and
//! every encoder and decoder is proved against them.  Values are emitted in
//! little-endian order, the native order of the supported targets; the wire
//! format's network-byte-order marker (bit 14 of an attribute kind) is never
//! set on emit and is masked away on decode.

pub mod codec;
pub mod constants;
pub mod ctrl;
pub mod devlink;
pub mod err;
pub mod genl;
pub mod indexed;
pub mod message;
pub mod nla;
pub mod scalar;
pub mod wire;
