//! The header of a part: its type, its id and its parameters, and the bytes
//! that stand for them on the wire.

use crate::buf::{bytes_as_slice, bytes_view};
use crate::chunk::Chunk;
use bytes::Bytes;
use vstd::prelude::*;

verus! {

/// The number that tells the parts of one bundle apart.
pub type PartId = u32;

/// The part types of the protocol.
#[derive(Debug, Clone, Copy, PartialEq, Eq, Structural)]
pub enum PartHeaderType {
    Bookmarks,
    Changegroup,
    CheckHeads,
    Listkeys,
    Obsmarkers,
    PhaseHeads,
    Pushkey,
    Pushvars,
    Replycaps,
    ReplyChangegroup,
    ReplyPushkey,
}

impl PartHeaderType {
    /// The name of the part type on the wire.
    pub open spec fn name(self) -> Seq<char> {
        match self {
            PartHeaderType::Bookmarks => "bookmarks"@,
            PartHeaderType::Changegroup => "changegroup"@,
            PartHeaderType::CheckHeads => "check:heads"@,
            PartHeaderType::Listkeys => "listkeys"@,
            PartHeaderType::Obsmarkers => "obsmarkers"@,
            PartHeaderType::PhaseHeads => "phase-heads"@,
            PartHeaderType::Pushkey => "pushkey"@,
            PartHeaderType::Pushvars => "pushvars"@,
            PartHeaderType::Replycaps => "replycaps"@,
            PartHeaderType::ReplyChangegroup => "reply:changegroup"@,
            PartHeaderType::ReplyPushkey => "reply:pushkey"@,
        }
    }

    /// The name of the part type on the wire.
    pub fn as_str(&self) -> (s: &'static str)
        ensures
            s@ == self.name(),
    {
        match self {
            PartHeaderType::Bookmarks => "bookmarks",
            PartHeaderType::Changegroup => "changegroup",
            PartHeaderType::CheckHeads => "check:heads",
            PartHeaderType::Listkeys => "listkeys",
            PartHeaderType::Obsmarkers => "obsmarkers",
            PartHeaderType::PhaseHeads => "phase-heads",
            PartHeaderType::Pushkey => "pushkey",
            PartHeaderType::Pushvars => "pushvars",
            PartHeaderType::Replycaps => "replycaps",
            PartHeaderType::ReplyChangegroup => "reply:changegroup",
            PartHeaderType::ReplyPushkey => "reply:pushkey",
        }
    }
}

/// A header under construction was given a key that it already holds.
#[derive(Debug, Clone, Copy, PartialEq, Eq, Structural)]
pub enum ConfigError {
    /// The key is already among the mandatory parameters.
    DuplicateMandatoryParam,
    /// The key is already among the advisory parameters.
    DuplicateAdvisoryParam,
}

/// The parameters of one kind, as they were added: keys and values.
pub type Params = Seq<(Seq<char>, Seq<u8>)>;

/// What a header says, as plain values.
pub struct HeaderView {
    pub part_type: PartHeaderType,
    pub mandatory: bool,
    pub part_id: PartId,
    pub mparams: Params,
    pub aparams: Params,
}

/// The parameters held in `v`, in the order in which they were added.
pub open spec fn params_view(v: Vec<(String, Bytes)>) -> Params {
    Seq::new(v@.len(), |i: int| (v@[i].0@, bytes_view(v@[i].1)))
}

/// Whether `key` is the key of one of `params`.
pub open spec fn has_key(params: Params, key: Seq<char>) -> bool {
    exists|i: int| 0 <= i < params.len() && (#[trigger] params[i]).0 == key
}

/// No key occurs twice in `params`.
pub open spec fn distinct_keys(params: Params) -> bool {
    forall|i: int, j: int|
        0 <= i < j < params.len() ==> (#[trigger] params[i]).0 != (#[trigger] params[j]).0
}

/// `x` in `width` bytes, the most significant first (`x` below `256^width`).
pub open spec fn be_bytes(x: nat, width: nat) -> Seq<u8>
    decreases width,
{
    if width == 0 {
        Seq::<u8>::empty()
    } else {
        be_bytes(x / 256, (width - 1) as nat).push((x % 256) as u8)
    }
}

/// A field of any length: its length in 8 bytes, then its bytes.
pub open spec fn field_bytes(b: Seq<u8>) -> Seq<u8> {
    be_bytes(b.len(), 8) + b
}

/// The entries of `params` one after the other: each is its key, in UTF-8,
/// and its value, both as fields.
pub open spec fn entries_bytes(params: Params) -> Seq<u8>
    decreases params.len(),
{
    if params.len() == 0 {
        Seq::<u8>::empty()
    } else {
        entries_bytes(params.drop_last()) + field_bytes(
            vstd::utf8::encode_utf8(params.last().0),
        ) + field_bytes(params.last().1)
    }
}

/// The parameters of one kind: how many there are, in 8 bytes, then the
/// entries.
pub open spec fn params_bytes(params: Params) -> Seq<u8> {
    be_bytes(params.len(), 8) + entries_bytes(params)
}

/// The bytes of a header: one byte that is 1 for a mandatory part and 0 for
/// an advisory one, the name of the part type as a field, the part id in 4
/// bytes, the mandatory parameters and the advisory parameters.
pub open spec fn header_bytes(h: HeaderView) -> Seq<u8> {
    seq![if h.mandatory { 1u8 } else { 0u8 }] + field_bytes(
        vstd::utf8::encode_utf8(h.part_type.name()),
    ) + be_bytes(h.part_id as nat, 4) + params_bytes(h.mparams) + params_bytes(h.aparams)
}

/// The bytes of a header are never empty: no header looks like the chunk
/// that ends a part.
pub proof fn header_bytes_nonempty(h: HeaderView)
    ensures
        header_bytes(h).len() > 0,
{
}

/// Appends `x` in `width` bytes, the most significant first.
fn put_be(out: &mut Vec<u8>, x: u64, width: u8)
    ensures
        final(out)@ == old(out)@ + be_bytes(x as nat, width as nat),
    decreases width,
{
    if width > 0 {
        put_be(out, x / 256, width - 1);
        out.push((x % 256) as u8);
        assert(out@ =~= old(out)@ + be_bytes(x as nat / 256, (width - 1) as nat).push(
            (x as nat % 256) as u8,
        ));
    } else {
        assert(out@ =~= old(out)@ + be_bytes(x as nat, 0));
    }
}

/// Appends `bytes` as a field.
fn put_field(out: &mut Vec<u8>, bytes: &[u8])
    ensures
        final(out)@ == old(out)@ + field_bytes(bytes@),
{
    put_be(out, bytes.len() as u64, 8);
    out.extend_from_slice(bytes);
    assert(out@ =~= old(out)@ + field_bytes(bytes@));
}

/// Appends the parameters of one kind.
fn put_params(out: &mut Vec<u8>, params: &Vec<(String, Bytes)>)
    ensures
        final(out)@ == old(out)@ + params_bytes(params_view(*params)),
{
    let ghost all = params_view(*params);
    put_be(out, params.len() as u64, 8);
    let mut i: usize = 0;
    assert(all.take(0) =~= Seq::<(Seq<char>, Seq<u8>)>::empty());
    assert(out@ =~= old(out)@ + be_bytes(all.len(), 8) + entries_bytes(all.take(0)));
    while i < params.len()
        invariant
            i <= params.len(),
            all == params_view(*params),
            out@ == old(out)@ + be_bytes(all.len(), 8) + entries_bytes(all.take(i as int)),
        decreases params.len() - i,
    {
        let ghost before = out@;
        put_field(out, params[i].0.as_str().as_bytes());
        put_field(out, bytes_as_slice(&params[i].1));
        proof {
            let next = all.take(i + 1);
            assert(next.drop_last() =~= all.take(i as int));
            assert(next.last() == all[i as int]);
            assert(out@ =~= old(out)@ + be_bytes(all.len(), 8) + entries_bytes(next));
        }
        i += 1;
    }
    assert(all.take(i as int) =~= all);
    assert(out@ =~= old(out)@ + params_bytes(all));
}

/// Whether `key` is the key of one of `params`.
fn contains_key(params: &Vec<(String, Bytes)>, key: &String) -> (found: bool)
    ensures
        found == has_key(params_view(*params), key@),
{
    let mut i: usize = 0;
    while i < params.len()
        invariant
            i <= params.len(),
            forall|j: int| 0 <= j < i ==> (#[trigger] params_view(*params)[j]).0 != key@,
        decreases params.len() - i,
    {
        if params[i].0 == *key {
            assert(params_view(*params)[i as int].0 == key@);
            return true;
        }
        i += 1;
    }
    false
}

/// A header under construction: the part id is still to come.
#[derive(Debug)]
pub struct PartHeaderBuilder {
    part_type: PartHeaderType,
    mandatory: bool,
    mparams: Vec<(String, Bytes)>,
    aparams: Vec<(String, Bytes)>,
}

impl PartHeaderBuilder {
    /// The type of the part.
    pub closed spec fn part_type(&self) -> PartHeaderType {
        self.part_type
    }

    /// Whether a receiver must understand the part.
    pub closed spec fn mandatory(&self) -> bool {
        self.mandatory
    }

    /// The mandatory parameters added so far.
    pub closed spec fn mparams(&self) -> Params {
        params_view(self.mparams)
    }

    /// The advisory parameters added so far.
    pub closed spec fn aparams(&self) -> Params {
        params_view(self.aparams)
    }

    /// No key was added twice to the parameters of one kind.
    pub open spec fn wf(&self) -> bool {
        distinct_keys(self.mparams()) && distinct_keys(self.aparams())
    }

    /// The header that `build` makes of this builder and `part_id`.
    pub open spec fn header(&self, part_id: PartId) -> HeaderView {
        HeaderView {
            part_type: self.part_type(),
            mandatory: self.mandatory(),
            part_id,
            mparams: self.mparams(),
            aparams: self.aparams(),
        }
    }

    /// Starts a header without parameters. Every `PartHeaderType` is a type
    /// of the protocol, so this succeeds.
    pub fn new(part_type: PartHeaderType, mandatory: bool) -> (r: Result<Self, ConfigError>)
        ensures
            r is Ok,
            r->Ok_0.wf(),
            r->Ok_0.part_type() == part_type,
            r->Ok_0.mandatory() == mandatory,
            r->Ok_0.mparams() == Seq::<(Seq<char>, Seq<u8>)>::empty(),
            r->Ok_0.aparams() == Seq::<(Seq<char>, Seq<u8>)>::empty(),
    {
        let b = PartHeaderBuilder { part_type, mandatory, mparams: Vec::new(), aparams: Vec::new() };
        assert(b.mparams() =~= Seq::<(Seq<char>, Seq<u8>)>::empty());
        assert(b.aparams() =~= Seq::<(Seq<char>, Seq<u8>)>::empty());
        Ok(b)
    }

    /// Adds a mandatory parameter, unless `key` is already the key of one:
    /// then nothing changes.
    pub fn add_mparam(&mut self, key: String, val: Bytes) -> (r: Result<&mut Self, ConfigError>)
        requires
            old(self).wf(),
        ensures
            has_key(old(self).mparams(), key@) ==> r is Err && r->Err_0
                == ConfigError::DuplicateMandatoryParam && *final(self) == *old(self),
            !has_key(old(self).mparams(), key@) ==> r is Ok && *final(self) == *final(r->Ok_0) && {
                let b = *r->Ok_0;
                &&& b.wf()
                &&& b.part_type() == old(self).part_type()
                &&& b.mandatory() == old(self).mandatory()
                &&& b.mparams() == old(self).mparams().push((key@, bytes_view(val)))
                &&& b.aparams() == old(self).aparams()
            },
    {
        if contains_key(&self.mparams, &key) {
            return Err(ConfigError::DuplicateMandatoryParam);
        }
        self.mparams.push((key, val));
        assert(self.mparams() =~= old(self).mparams().push((key@, bytes_view(val))));
        Ok(self)
    }

    /// Adds an advisory parameter, unless `key` is already the key of one:
    /// then nothing changes.
    pub fn add_aparam(&mut self, key: String, val: Bytes) -> (r: Result<&mut Self, ConfigError>)
        requires
            old(self).wf(),
        ensures
            has_key(old(self).aparams(), key@) ==> r is Err && r->Err_0
                == ConfigError::DuplicateAdvisoryParam && *final(self) == *old(self),
            !has_key(old(self).aparams(), key@) ==> r is Ok && *final(self) == *final(r->Ok_0) && {
                let b = *r->Ok_0;
                &&& b.wf()
                &&& b.part_type() == old(self).part_type()
                &&& b.mandatory() == old(self).mandatory()
                &&& b.aparams() == old(self).aparams().push((key@, bytes_view(val)))
                &&& b.mparams() == old(self).mparams()
            },
    {
        if contains_key(&self.aparams, &key) {
            return Err(ConfigError::DuplicateAdvisoryParam);
        }
        self.aparams.push((key, val));
        assert(self.aparams() =~= old(self).aparams().push((key@, bytes_view(val))));
        Ok(self)
    }

    /// Finishes the header with its part id.
    pub fn build(self, part_id: PartId) -> (h: PartHeader)
        requires
            self.wf(),
        ensures
            h@ == self.header(part_id),
            h.wf(),
    {
        PartHeader {
            part_type: self.part_type,
            mandatory: self.mandatory,
            part_id,
            mparams: self.mparams,
            aparams: self.aparams,
        }
    }
}

/// A finished header.
#[derive(Debug)]
pub struct PartHeader {
    part_type: PartHeaderType,
    mandatory: bool,
    part_id: PartId,
    mparams: Vec<(String, Bytes)>,
    aparams: Vec<(String, Bytes)>,
}

impl View for PartHeader {
    type V = HeaderView;

    closed spec fn view(&self) -> HeaderView {
        HeaderView {
            part_type: self.part_type,
            mandatory: self.mandatory,
            part_id: self.part_id,
            mparams: params_view(self.mparams),
            aparams: params_view(self.aparams),
        }
    }
}

impl PartHeader {
    /// No key occurs twice among the parameters of one kind.
    pub open spec fn wf(&self) -> bool {
        distinct_keys(self@.mparams) && distinct_keys(self@.aparams)
    }

    /// The type of the part.
    pub fn part_type(&self) -> (t: PartHeaderType)
        ensures
            t == self@.part_type,
    {
        self.part_type
    }

    /// Whether a receiver must understand the part.
    pub fn mandatory(&self) -> (m: bool)
        ensures
            m == self@.mandatory,
    {
        self.mandatory
    }

    /// The id of the part.
    pub fn part_id(&self) -> (id: PartId)
        ensures
            id == self@.part_id,
    {
        self.part_id
    }

    /// The header as one chunk.
    pub fn encode(&self) -> (c: Chunk)
        ensures
            c@ == header_bytes(self@),
            !c.is_terminator(),
    {
        let mut out: Vec<u8> = Vec::new();
        out.push(if self.mandatory { 1u8 } else { 0u8 });
        put_field(&mut out, self.part_type.as_str().as_bytes());
        put_be(&mut out, self.part_id as u64, 4);
        put_params(&mut out, &self.mparams);
        put_params(&mut out, &self.aparams);
        assert(out@ =~= header_bytes(self@));
        Chunk::from_vec(out)
    }
}

} // verus!
