//! Identifiers of pipelines and workers.

use uuid::Uuid;
use vstd::prelude::*;

verus! {

/// The error of [`Index::new`]: the raw index was zero.
#[derive(Clone, Copy, Debug, PartialEq, Eq, Structural)]
pub struct ZeroIndex;

/// The index of a pipeline inside its namespace. It is never zero.
#[derive(Clone, Copy, Debug, PartialEq, Eq, Hash, Structural)]
pub struct Index {
    value: u32,
}

impl View for Index {
    type V = u32;

    closed spec fn view(&self) -> u32 {
        self.value
    }
}

impl Index {
    #[verifier::type_invariant]
    spec fn nonzero(self) -> bool {
        self.value != 0
    }

    /// Accepts every raw index but zero.
    pub fn new(value: u32) -> (r: Result<Index, ZeroIndex>)
        ensures
            value == 0 <==> r is Err,
            r matches Ok(index) ==> index@ == value,
    {
        if value == 0 {
            Err(ZeroIndex)
        } else {
            Ok(Index { value })
        }
    }

    /// The raw index, which is not zero.
    pub fn get(&self) -> (value: u32)
        ensures
            value == self@,
            value != 0,
    {
        proof {
            use_type_invariant(self);
        }
        self.value
    }
}

/// The namespace that a pipeline was allocated in.
#[derive(Clone, Copy, Debug, PartialEq, Eq, Hash, Structural)]
pub struct PipelineNamespaceId(pub u32);

/// The identity of a script execution context: a page or a frame.
#[derive(Clone, Copy, Debug, PartialEq, Eq, Hash, Structural)]
pub struct PipelineId {
    pub namespace_id: PipelineNamespaceId,
    pub index: Index,
}

/// A pipeline identifier as plain numbers.
pub struct PipelineIdView {
    pub namespace_id: u32,
    pub index: u32,
}

impl View for PipelineId {
    type V = PipelineIdView;

    open spec fn view(&self) -> PipelineIdView {
        PipelineIdView { namespace_id: self.namespace_id.0, index: self.index@ }
    }
}

impl PipelineId {
    /// Builds the identifier from the two numbers of a notification. An index
    /// of zero is refused.
    pub fn from_raw(namespace_id: u32, index: u32) -> (r: Result<PipelineId, ZeroIndex>)
        ensures
            index == 0 <==> r is Err,
            r matches Ok(id) ==> id@ == (PipelineIdView { namespace_id, index }),
    {
        match Index::new(index) {
            Ok(index) => Ok(PipelineId { namespace_id: PipelineNamespaceId(namespace_id), index }),
            Err(e) => Err(e),
        }
    }
}

/// What the UUID parser makes of `text`: the 128 bits of the UUID that it
/// reads, its first byte the most significant, or `None` where it fails.
pub uninterp spec fn uuid_parse(text: Seq<char>) -> Option<u128>;

/// The text that a UUID of the 128 bits `value` is displayed as.
pub uninterp spec fn uuid_text(value: u128) -> Seq<char>;

/// Runs `uuid::Uuid::parse_str(text)` and hands back the UUID as the integer
/// that `Uuid::as_u128` gives, or `None` where the parser returns an error.
///
/// Not proved: that the answer is [`uuid_parse`] of the text, that is, that the
/// parser's answer depends on nothing but the text.
#[verifier::external_body]
fn parse_uuid(text: &str) -> (r: Option<u128>)
    ensures
        r == uuid_parse(text@),
{
    match Uuid::parse_str(text) {
        Ok(uuid) => Some(uuid.as_u128()),
        Err(_) => None,
    }
}

/// Displays the UUID that `Uuid::from_u128(value)` gives, as `to_string` does.
///
/// Not proved: that the answer is [`uuid_text`] of the value, that is, that the
/// text depends on nothing but the value.
#[verifier::external_body]
fn display_uuid(value: u128) -> (s: String)
    ensures
        s@ == uuid_text(value),
{
    Uuid::from_u128(value).to_string()
}

/// The error of [`WorkerId::parse`]: the text is no worker identifier.
#[derive(Clone, Copy, Debug, PartialEq, Eq, Structural)]
pub struct MalformedWorkerId;

/// The identity of a worker's global scope: the 128 bits of a UUID.
#[derive(Clone, Copy, Debug, PartialEq, Eq, Hash, Structural)]
pub struct WorkerId(pub u128);

/// The worker identifier that `text` stands for.
pub open spec fn parsed_worker_id(text: Seq<char>) -> Result<WorkerId, MalformedWorkerId> {
    match uuid_parse(text) {
        Some(value) => Ok(WorkerId(value)),
        None => Err(MalformedWorkerId),
    }
}

impl WorkerId {
    /// Reads a worker identifier from the text of a UUID.
    pub fn parse(text: &str) -> (r: Result<WorkerId, MalformedWorkerId>)
        ensures
            r == parsed_worker_id(text@),
    {
        match parse_uuid(text) {
            Some(value) => Ok(WorkerId(value)),
            None => Err(MalformedWorkerId),
        }
    }

    /// The text of the identifier, as listeners receive it.
    pub fn to_text(&self) -> (s: String)
        ensures
            s@ == uuid_text(self.0),
    {
        display_uuid(self.0)
    }
}

} // verus!
