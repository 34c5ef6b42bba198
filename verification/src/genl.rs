//! The generic netlink header: the mandatory four-byte prefix of every
//! generic netlink payload — command, version, and two reserved bytes that
//! are zero on emit and ignored on parse, never treated as an error.

use vstd::prelude::*;
use vstd::slice::slice_index_get;
use crate::err::{ErrorKind, NlError};

verus! {

/// The four-byte generic netlink header.
#[derive(Clone, Copy, Debug, PartialEq, Eq, Structural)]
pub struct GenlHeader {
    /// The family command byte.
    pub cmd: u8,
    /// The family protocol version.
    pub version: u8,
}

/// The bytes of an emitted header: command, version, two zero bytes.
pub open spec fn spec_genl_header(cmd: u8, version: u8) -> Seq<u8> {
    seq![cmd, version, 0u8, 0u8]
}

/// The header at the head of `p`, reserved bytes ignored; fails with
/// `BufferTooShort` when fewer than four bytes remain.
pub open spec fn spec_parse_genl_header(p: Seq<u8>) -> Result<GenlHeader, ErrorKind> {
    if p.len() >= 4 {
        Ok(GenlHeader { cmd: p[0], version: p[1] })
    } else {
        Err(ErrorKind::BufferTooShort)
    }
}

impl GenlHeader {
    /// Appends the header's four bytes: command, version, zeroed reserved
    /// field.
    pub fn emit(&self, out: &mut Vec<u8>)
        ensures
            final(out)@ == old(out)@ + spec_genl_header(self.cmd, self.version),
    {
        out.push(self.cmd);
        out.push(self.version);
        out.push(0u8);
        out.push(0u8);
        proof {
            assert(out@ =~= old(out)@ + spec_genl_header(self.cmd, self.version));
        }
    }

    /// Reads the header at the head of `p`, ignoring the reserved bytes.
    pub fn parse(p: &[u8]) -> (r: Result<GenlHeader, NlError>)
        ensures
            match r {
                Ok(h) => spec_parse_genl_header(p@) == Ok::<_, ErrorKind>(h),
                Err(e) => spec_parse_genl_header(p@) == Err::<GenlHeader, _>(e.kind),
            },
    {
        if p.len() < 4 {
            return Err(NlError::new(ErrorKind::BufferTooShort).context("generic header"));
        }
        Ok(GenlHeader { cmd: *slice_index_get(p, 0), version: *slice_index_get(p, 1) })
    }
}

/// Decoding an emitted header gives back its command and version.
pub proof fn lemma_genl_header_round_trip(cmd: u8, version: u8)
    ensures
        spec_parse_genl_header(spec_genl_header(cmd, version)) == Ok::<_, ErrorKind>(
            GenlHeader { cmd, version },
        ),
{
}

} // verus!
