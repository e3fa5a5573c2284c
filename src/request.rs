use vstd::prelude::*;
use vstd::utf8::encode_utf8;

use crate::catalog::{EntryPoint, ParamKind};
use crate::encode::{encode_bytes, encode_text, has_terminator, OutboundBuffer};
use crate::error::MarshalError;

verus! {

/// A host value to hand to an entry point.
pub enum HostArg<'a> {
    /// Text, sent as its UTF-8 bytes.
    Text(&'a str),
    /// Raw bytes, sent as they are.
    Bytes(&'a [u8]),
}

impl<'a> HostArg<'a> {
    /// The parameter kind this value fills.
    pub open spec fn kind(self) -> ParamKind {
        match self {
            HostArg::Text(_) => ParamKind::Text,
            HostArg::Bytes(_) => ParamKind::Bytes,
        }
    }

    /// The parameter kind this value fills.
    pub fn param_kind(&self) -> (k: ParamKind)
        ensures
            k == self.kind(),
    {
        match self {
            HostArg::Text(_) => ParamKind::Text,
            HostArg::Bytes(_) => ParamKind::Bytes,
        }
    }

    /// The bytes that go on the wire for this value.
    pub open spec fn wire_bytes(self) -> Seq<u8> {
        match self {
            HostArg::Text(s) => encode_utf8(s@),
            HostArg::Bytes(b) => b@,
        }
    }
}

/// True when `args` fill the parameters of `entry`, in number and kind.
pub open spec fn fits(entry: EntryPoint, args: Seq<HostArg>) -> bool {
    &&& args.len() == entry.params().len()
    &&& forall|i: int| 0 <= i < args.len() ==> (#[trigger] args[i]).kind() == entry.params()[i]
}

impl EntryPoint {
    /// Whether `args` fill the parameters of this entry point, in number and
    /// kind.
    pub fn accepts(&self, args: &[HostArg]) -> (r: bool)
        ensures
            r == fits(*self, args@),
    {
        let n = self.param_count();
        if args.len() != n {
            return false;
        }
        let mut i: usize = 0;
        while i < n
            invariant
                n == self.params().len(),
                args@.len() == n,
                i <= n,
                forall|j: int| 0 <= j < i ==> (#[trigger] args@[j]).kind() == self.params()[j],
            decreases n - i,
        {
            if args[i].param_kind() != self.param(i) {
                return false;
            }
            i = i + 1;
        }
        true
    }
}

/// True when a host value is refused: text holding the NUL character, or
/// bytes holding the terminator.
pub open spec fn refused(a: HostArg) -> bool {
    match a {
        HostArg::Text(s) => s@.contains('\0'),
        HostArg::Bytes(b) => has_terminator(b@),
    }
}

/// True when some argument is refused.
pub open spec fn any_refused(args: Seq<HostArg>) -> bool {
    exists|i: int| 0 <= i < args.len() && refused(#[trigger] args[i])
}

/// A foreign call ready to be made: the entry point and its encoded
/// arguments, each in a buffer that lives as long as the request.
///
/// A request exists only for arguments free of the terminator byte, so no
/// foreign call can be made with any other.
pub struct Request {
    entry: EntryPoint,
    args: Vec<OutboundBuffer>,
}

impl Request {
    /// The entry point to invoke.
    pub closed spec fn spec_entry(self) -> EntryPoint {
        self.entry
    }

    /// The payload of each encoded argument, in order.
    pub closed spec fn payloads(self) -> Seq<Seq<u8>> {
        self.args@.map_values(|b: OutboundBuffer| b.payload())
    }

    /// Encodes every argument for a call to `entry`, or fails with
    /// `InvalidInput`, before anything is handed out, when one of them is
    /// refused. This is the only way to a foreign call, so a refused argument
    /// means that none is made.
    pub fn new(entry: EntryPoint, args: &[HostArg]) -> (r: Result<Request, MarshalError>)
        requires
            fits(entry, args@),
        ensures
            match r {
                Ok(req) => {
                    &&& !any_refused(args@)
                    &&& req.spec_entry() == entry
                    &&& req.payloads() == args@.map_values(|a: HostArg| a.wire_bytes())
                },
                Err(e) => any_refused(args@) && e == MarshalError::InvalidInput,
            },
    {
        let mut encoded: Vec<OutboundBuffer> = Vec::new();
        let mut i: usize = 0;
        while i < args.len()
            invariant
                i <= args@.len(),
                encoded@.len() == i,
                forall|j: int| 0 <= j < i ==> !refused(#[trigger] args@[j]),
                forall|j: int|
                    0 <= j < i ==> (#[trigger] encoded@[j]).payload() == args@[j].wire_bytes(),
            decreases args@.len() - i,
        {
            let next = match &args[i] {
                HostArg::Text(s) => encode_text(s),
                HostArg::Bytes(b) => encode_bytes(b),
            };
            match next {
                Ok(buf) => encoded.push(buf),
                Err(e) => {
                    assert(refused(args@[i as int]));
                    return Err(e);
                },
            }
            i = i + 1;
        }
        let req = Request { entry, args: encoded };
        assert(req.payloads() =~= args@.map_values(|a: HostArg| a.wire_bytes()));
        Ok(req)
    }

    /// The entry point to invoke.
    pub fn entry(&self) -> (e: EntryPoint)
        ensures
            e == self.spec_entry(),
    {
        self.entry
    }

    /// The encoded argument at position `i`.
    pub fn arg(&self, i: usize) -> (b: &OutboundBuffer)
        requires
            i < self.payloads().len(),
        ensures
            b.payload() == self.payloads()[i as int],
    {
        &self.args[i]
    }
}

} // verus!
