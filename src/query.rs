use vstd::prelude::*;

use crate::filter::{Filter, FilterValue, ScalarView};
use crate::ids::{XoObject, XoObjectId};
use crate::object_type::{object_type_tag, ObjectType};
use crate::rpc::RpcError;

verus! {

/// The cap on results that a single-object query asks for. It is two, not
/// one: a second match must show up, so that a broken uniqueness can be told
/// apart from a single hit.
pub const SINGLE_OBJECT_LIMIT: usize = 2;

/// Arguments of the server's "get all objects" call.
#[derive(Debug, Clone)]
pub struct GetAllObjectsArgs {
    /// Field-equality constraints; `None` sends no filter at all.
    pub filter: Option<Filter>,
    /// Maximum number of objects in the reply; `None` sends no limit.
    pub limit: Option<usize>,
}

/// The constraints of a caller's optional filter.
pub open spec fn filter_view(filter: Option<Filter>) -> Map<Seq<char>, ScalarView> {
    match filter {
        Some(f) => f@,
        None => Map::empty(),
    }
}

/// A caller's filter with the object type's tag set under `"type"`, over
/// whatever the caller put there.
pub open spec fn typed_filter(
    filter: Map<Seq<char>, ScalarView>,
    object_type: ObjectType,
) -> Map<Seq<char>, ScalarView> {
    filter.insert("type"@, ScalarView::Str(object_type_tag(object_type)))
}

/// The filter that selects the object of type `object_type` with id `id`.
pub open spec fn single_object_filter(id: Seq<char>, object_type: ObjectType) -> Map<
    Seq<char>,
    ScalarView,
> {
    map![
        "id"@ => ScalarView::Str(id),
        "type"@ => ScalarView::Str(object_type_tag(object_type)),
    ]
}

/// Whether an entry of a reply is keyed by `id`.
pub open spec fn reply_holds_id<I: XoObjectId, R>(entries: Seq<(I, R)>, id: Seq<char>) -> bool {
    exists|i: int| 0 <= i < entries.len() && (#[trigger] entries[i]).0.wire() == id
}

/// Why a single-object query did not yield at most one object.
#[derive(Debug)]
pub enum GetSingleObjectError {
    /// The server reported more than one object for an id that should be
    /// unique.
    MultipleMatches,
    /// The remote call failed.
    Rpc(RpcError),
}

/// Arguments that fetch the objects of type `object_type` that match
/// `filter`, at most `limit` of them. The type's tag always stands in the
/// filter sent, over any `"type"` constraint of the caller.
pub fn objects_of_type_args(
    object_type: ObjectType,
    filter: Option<Filter>,
    limit: Option<usize>,
) -> (r: GetAllObjectsArgs)
    ensures
        r.filter is Some,
        r.filter->0@ == typed_filter(filter_view(filter), object_type),
        r.limit == limit,
{
    let mut f = match filter {
        Some(f) => f,
        None => Filter::new(),
    };
    f.insert("type".to_string(), FilterValue::Str(object_type.to_string()));
    GetAllObjectsArgs { filter: Some(f), limit }
}

/// Arguments that fetch the objects of kind `R` that match `filter`, at most
/// `limit` of them.
pub fn objects_args<R: XoObject>(filter: Option<Filter>, limit: Option<usize>) -> (r:
    GetAllObjectsArgs)
    ensures
        r.filter is Some,
        r.filter->0@ == typed_filter(filter_view(filter), R::spec_object_type()),
        r.limit == limit,
{
    objects_of_type_args(R::object_type(), filter, limit)
}

/// Arguments that fetch the object of kind `R` with id `id`, capped at
/// [`SINGLE_OBJECT_LIMIT`].
pub fn single_object_args<R: XoObject>(id: &R::IdType) -> (r: GetAllObjectsArgs)
    ensures
        r.filter is Some,
        r.filter->0@ == single_object_filter(id.wire(), R::spec_object_type()),
        r.limit == Some(SINGLE_OBJECT_LIMIT),
{
    let mut f = Filter::new();
    f.insert("id".to_string(), FilterValue::Str(id.to_wire()));
    f.insert("type".to_string(), FilterValue::Str(R::object_type().to_string()));
    assert(f@ =~= single_object_filter(id.wire(), R::spec_object_type()));
    GetAllObjectsArgs { filter: Some(f), limit: Some(SINGLE_OBJECT_LIMIT) }
}

/// The result of a single-object query, from the reply to
/// [`single_object_args`]: a failed call is handed on; a reply without `id`
/// means no such object; a reply of that one object yields it; a reply that
/// holds `id` and anything more breaks the id's uniqueness.
pub fn single_object_outcome<R: XoObject>(
    reply: Result<Vec<(R::IdType, R)>, RpcError>,
    id: &R::IdType,
) -> (r: Result<Option<R>, GetSingleObjectError>)
    ensures
        match reply {
            Err(e) => r == Err::<Option<R>, GetSingleObjectError>(GetSingleObjectError::Rpc(e)),
            Ok(entries) => if !reply_holds_id(entries@, id.wire()) {
                r == Ok::<Option<R>, GetSingleObjectError>(None)
            } else if entries@.len() == 1 {
                r == Ok::<Option<R>, GetSingleObjectError>(Some(entries@[0].1))
            } else {
                r == Err::<Option<R>, GetSingleObjectError>(GetSingleObjectError::MultipleMatches)
            },
        },
        (reply matches Ok(entries) && exists|i: int, j: int|
            0 <= i < j < entries@.len() && (#[trigger] entries@[i]).0.wire() == id.wire()
                && (#[trigger] entries@[j]).0.wire() == id.wire())
            ==> r == Err::<Option<R>, GetSingleObjectError>(GetSingleObjectError::MultipleMatches),
{
    let mut entries = match reply {
        Err(e) => return Err(GetSingleObjectError::Rpc(e)),
        Ok(entries) => entries,
    };
    let wanted = id.to_wire();
    let mut found = false;
    let mut i: usize = 0;
    while i < entries.len()
        invariant
            i <= entries.len(),
            wanted@ == id.wire(),
            found <==> exists|j: int| 0 <= j < i && (#[trigger] entries@[j]).0.wire() == id.wire(),
        decreases entries.len() - i,
    {
        if entries[i].0.to_wire() == wanted {
            found = true;
        }
        i = i + 1;
    }
    if !found {
        Ok(None)
    } else if entries.len() == 1 {
        let (_, record) = entries.pop().unwrap();
        Ok(Some(record))
    } else {
        Err(GetSingleObjectError::MultipleMatches)
    }
}

/// The object that a reply holds under `id`, if any; other entries are
/// ignored.
pub fn object_with_id<R: XoObject>(entries: Vec<(R::IdType, R)>, id: &R::IdType) -> (r: Option<R>)
    ensures
        r is Some <==> reply_holds_id(entries@, id.wire()),
        r matches Some(o) ==> exists|i: int|
            0 <= i < entries@.len() && (#[trigger] entries@[i]).0.wire() == id.wire()
                && entries@[i].1 == o,
{
    let ghost all = entries@;
    let wanted = id.to_wire();
    let mut pending = entries;
    let ghost mut j: int = 0;
    while pending.len() > 0
        invariant
            0 <= j <= all.len(),
            all == entries@,
            wanted@ == id.wire(),
            pending@ == all.subrange(j, all.len() as int),
            forall|k: int| 0 <= k < j ==> (#[trigger] all[k]).0.wire() != id.wire(),
        decreases pending.len(),
    {
        let (key, object) = pending.remove(0);
        assert(all[j] == (key, object));
        if key.to_wire() == wanted {
            assert(all[j].0.wire() == id.wire());
            return Some(object);
        }
        proof {
            j = j + 1;
            assert(pending@ =~= all.subrange(j, all.len() as int));
        }
    }
    None
}

} // verus!
