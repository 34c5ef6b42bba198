//! The control family's command set and message payload.
//!
//! The family binds a closed, total mapping between command bytes and named
//! variants, a fixed outgoing version, and the knowledge of which commands
//! may legally be combined with a multi-record dump request.  The codec does
//! not enforce dump capability; violating it is a caller error.

use vstd::prelude::*;
use crate::codec::{all_wf, emit_nla_stream, spec_nla_stream_of, stream_buffer_len};
use crate::constants::{
    CTRL_CMD_DELFAMILY, CTRL_CMD_DELMCAST_GRP, CTRL_CMD_DELOPS, CTRL_CMD_GETFAMILY,
    CTRL_CMD_GETMCAST_GRP, CTRL_CMD_GETOPS, CTRL_CMD_GETPOLICY, CTRL_CMD_NEWFAMILY,
    CTRL_CMD_NEWMCAST_GRP, CTRL_CMD_NEWOPS, GENL_ID_CTRL,
};
use crate::ctrl::attrs::{
    parse_ctrl_attrs, spec_parse_ctrl_stream, GenlCtrlAttrV, GenlCtrlAttrs,
};
use crate::err::{ErrorKind, NlError};
use crate::genl::GenlHeader;

verus! {

/// The closed command set of the control family.
#[derive(Clone, Copy, Debug, PartialEq, Eq, Structural)]
pub enum GenlCtrlCmd {
    NewFamily,
    DelFamily,
    GetFamily,
    NewOps,
    DelOps,
    GetOps,
    NewMcastGrp,
    DelMcastGrp,
    GetMcastGrp,
    GetPolicy,
}

/// The command byte each variant stands for.
pub open spec fn spec_ctrl_cmd_byte(cmd: GenlCtrlCmd) -> u8 {
    match cmd {
        GenlCtrlCmd::NewFamily => CTRL_CMD_NEWFAMILY,
        GenlCtrlCmd::DelFamily => CTRL_CMD_DELFAMILY,
        GenlCtrlCmd::GetFamily => CTRL_CMD_GETFAMILY,
        GenlCtrlCmd::NewOps => CTRL_CMD_NEWOPS,
        GenlCtrlCmd::DelOps => CTRL_CMD_DELOPS,
        GenlCtrlCmd::GetOps => CTRL_CMD_GETOPS,
        GenlCtrlCmd::NewMcastGrp => CTRL_CMD_NEWMCAST_GRP,
        GenlCtrlCmd::DelMcastGrp => CTRL_CMD_DELMCAST_GRP,
        GenlCtrlCmd::GetMcastGrp => CTRL_CMD_GETMCAST_GRP,
        GenlCtrlCmd::GetPolicy => CTRL_CMD_GETPOLICY,
    }
}

/// The variant a command byte decodes to; a byte outside the closed set is
/// `UnknownCommand`, never silently defaulted.
pub open spec fn spec_ctrl_cmd_from(b: u8) -> Result<GenlCtrlCmd, ErrorKind> {
    if b == CTRL_CMD_NEWFAMILY {
        Ok(GenlCtrlCmd::NewFamily)
    } else if b == CTRL_CMD_DELFAMILY {
        Ok(GenlCtrlCmd::DelFamily)
    } else if b == CTRL_CMD_GETFAMILY {
        Ok(GenlCtrlCmd::GetFamily)
    } else if b == CTRL_CMD_NEWOPS {
        Ok(GenlCtrlCmd::NewOps)
    } else if b == CTRL_CMD_DELOPS {
        Ok(GenlCtrlCmd::DelOps)
    } else if b == CTRL_CMD_GETOPS {
        Ok(GenlCtrlCmd::GetOps)
    } else if b == CTRL_CMD_NEWMCAST_GRP {
        Ok(GenlCtrlCmd::NewMcastGrp)
    } else if b == CTRL_CMD_DELMCAST_GRP {
        Ok(GenlCtrlCmd::DelMcastGrp)
    } else if b == CTRL_CMD_GETMCAST_GRP {
        Ok(GenlCtrlCmd::GetMcastGrp)
    } else if b == CTRL_CMD_GETPOLICY {
        Ok(GenlCtrlCmd::GetPolicy)
    } else {
        Err(ErrorKind::UnknownCommand(b))
    }
}

impl GenlCtrlCmd {
    /// The command byte of this variant.
    pub fn to_u8(&self) -> (b: u8)
        ensures
            b == spec_ctrl_cmd_byte(*self),
    {
        match self {
            GenlCtrlCmd::NewFamily => CTRL_CMD_NEWFAMILY,
            GenlCtrlCmd::DelFamily => CTRL_CMD_DELFAMILY,
            GenlCtrlCmd::GetFamily => CTRL_CMD_GETFAMILY,
            GenlCtrlCmd::NewOps => CTRL_CMD_NEWOPS,
            GenlCtrlCmd::DelOps => CTRL_CMD_DELOPS,
            GenlCtrlCmd::GetOps => CTRL_CMD_GETOPS,
            GenlCtrlCmd::NewMcastGrp => CTRL_CMD_NEWMCAST_GRP,
            GenlCtrlCmd::DelMcastGrp => CTRL_CMD_DELMCAST_GRP,
            GenlCtrlCmd::GetMcastGrp => CTRL_CMD_GETMCAST_GRP,
            GenlCtrlCmd::GetPolicy => CTRL_CMD_GETPOLICY,
        }
    }

    /// Decodes a command byte; a byte outside the closed set is a fatal
    /// `UnknownCommand`.
    pub fn from_u8(b: u8) -> (r: Result<GenlCtrlCmd, NlError>)
        ensures
            match r {
                Ok(c) => spec_ctrl_cmd_from(b) == Ok::<_, ErrorKind>(c),
                Err(e) => spec_ctrl_cmd_from(b) == Err::<GenlCtrlCmd, _>(e.kind),
            },
    {
        if b == CTRL_CMD_NEWFAMILY {
            Ok(GenlCtrlCmd::NewFamily)
        } else if b == CTRL_CMD_DELFAMILY {
            Ok(GenlCtrlCmd::DelFamily)
        } else if b == CTRL_CMD_GETFAMILY {
            Ok(GenlCtrlCmd::GetFamily)
        } else if b == CTRL_CMD_NEWOPS {
            Ok(GenlCtrlCmd::NewOps)
        } else if b == CTRL_CMD_DELOPS {
            Ok(GenlCtrlCmd::DelOps)
        } else if b == CTRL_CMD_GETOPS {
            Ok(GenlCtrlCmd::GetOps)
        } else if b == CTRL_CMD_NEWMCAST_GRP {
            Ok(GenlCtrlCmd::NewMcastGrp)
        } else if b == CTRL_CMD_DELMCAST_GRP {
            Ok(GenlCtrlCmd::DelMcastGrp)
        } else if b == CTRL_CMD_GETMCAST_GRP {
            Ok(GenlCtrlCmd::GetMcastGrp)
        } else if b == CTRL_CMD_GETPOLICY {
            Ok(GenlCtrlCmd::GetPolicy)
        } else {
            Err(NlError::new(ErrorKind::UnknownCommand(b)))
        }
    }

    /// Whether a caller may legally combine this command with a multi-record
    /// dump request.  Only the two query commands with dump handlers are.
    pub fn dump_capable(&self) -> (r: bool)
        ensures
            r == (*self is GetFamily || *self is GetPolicy),
    {
        match self {
            GenlCtrlCmd::GetFamily => true,
            GenlCtrlCmd::GetPolicy => true,
            _ => false,
        }
    }
}

/// The command-to-byte mapping is a bijection on the closed set: decoding an
/// encoded command gives the command back, for every variant.
pub proof fn lemma_ctrl_cmd_round_trip(cmd: GenlCtrlCmd)
    ensures
        spec_ctrl_cmd_from(spec_ctrl_cmd_byte(cmd)) == Ok::<_, ErrorKind>(cmd),
{
}

/// The payload of one control family message: its command and its
/// attributes.
#[derive(Clone, Debug, PartialEq, Eq)]
pub struct GenlCtrl {
    pub cmd: GenlCtrlCmd,
    pub nlas: Vec<GenlCtrlAttrs>,
}

/// The mathematical value of a control message payload.
pub struct GenlCtrlV {
    pub cmd: GenlCtrlCmd,
    pub nlas: Seq<GenlCtrlAttrV>,
}

impl View for GenlCtrl {
    type V = GenlCtrlV;

    open spec fn view(&self) -> GenlCtrlV {
        GenlCtrlV { cmd: self.cmd, nlas: self.nlas.deep_view() }
    }
}

impl DeepView for GenlCtrl {
    type V = GenlCtrlV;

    open spec fn deep_view(&self) -> GenlCtrlV {
        self@
    }
}

impl GenlCtrl {
    /// The name under which the family registers.
    pub fn family_name() -> (r: &'static str)
        ensures
            r@ == "nlctrl"@,
    {
        "nlctrl"
    }

    /// The controller's fixed, well-known numeric id.
    pub fn family_id(&self) -> (r: u16)
        ensures
            r == GENL_ID_CTRL,
    {
        GENL_ID_CTRL
    }

    /// The command byte of this message.
    pub fn command(&self) -> (r: u8)
        ensures
            r == spec_ctrl_cmd_byte(self.cmd),
    {
        self.cmd.to_u8()
    }

    /// The outgoing protocol version of the family.
    pub fn version(&self) -> (r: u8)
        ensures
            r == 2,
    {
        2
    }

    /// Every attribute of the message can be emitted.
    pub open spec fn wf(&self) -> bool {
        all_wf(self.nlas@)
    }

    /// The attribute stream of this message, without the generic header.
    pub open spec fn body_spec(&self) -> Seq<u8> {
        spec_nla_stream_of(self.nlas@)
    }

    /// Appends the attribute stream of this message.
    pub fn emit(&self, out: &mut Vec<u8>)
        requires
            self.wf(),
        ensures
            final(out)@ == old(out)@ + self.body_spec(),
    {
        emit_nla_stream(self.nlas.as_slice(), out);
    }

    /// The byte size of the attribute stream.
    pub fn buffer_len(&self) -> (n: usize)
        requires
            self.wf(),
            self.body_spec().len() <= usize::MAX,
        ensures
            n == self.body_spec().len(),
    {
        stream_buffer_len(self.nlas.as_slice())
    }

    /// Decodes a control message payload from its attribute bytes and its
    /// already-decoded generic header: the command byte selects the named
    /// variant, the one flat schema decodes the attributes.
    pub fn parse_with_param(buf: &[u8], header: GenlHeader) -> (r: Result<GenlCtrl, NlError>)
        ensures
            match r {
                Ok(m) => spec_ctrl_cmd_from(header.cmd) == Ok::<_, ErrorKind>(m@.cmd)
                    && spec_parse_ctrl_stream(buf@) == Ok::<_, ErrorKind>(m@.nlas),
                Err(e) => match spec_ctrl_cmd_from(header.cmd) {
                    Err(k) => e.kind == k,
                    Ok(_) => spec_parse_ctrl_stream(buf@) == Err::<Seq<GenlCtrlAttrV>, _>(e.kind),
                },
            },
    {
        let cmd = match GenlCtrlCmd::from_u8(header.cmd) {
            Ok(c) => c,
            Err(e) => {
                return Err(e);
            },
        };
        let nlas = match parse_ctrl_attrs(buf) {
            Ok(v) => v,
            Err(e) => {
                return Err(e.context("control message attributes"));
            },
        };
        Ok(GenlCtrl { cmd, nlas })
    }
}

} // verus!
