use vstd::prelude::*;

use crate::filter::accepts;
use crate::model::{
    DescriptorModel, RawRecord, RawRecordModel, RepositoryDescriptor, RunFilter,
};
use crate::Visibility;

verus! {

/// Why a page of the source API could not be decoded. Either the page itself
/// was not a JSON array, or a record in it lacked a required field. Both are
/// fatal to the enumeration: a bad record is never silently skipped.
#[derive(Clone, Copy, Debug, PartialEq, Eq, Structural)]
pub enum SourceDecodeError {
    MalformedPage,
    InvalidRecord,
}

impl SourceDecodeError {
    /// A fixed message naming the failure.
    pub fn describe(&self) -> (r: String)
        ensures
            *self is MalformedPage ==> r@ == "source page is not a JSON array"@,
            *self is InvalidRecord ==> r@ == "source record lacks a required field"@,
    {
        match self {
            SourceDecodeError::MalformedPage => "source page is not a JSON array".to_owned(),
            SourceDecodeError::InvalidRecord => "source record lacks a required field".to_owned(),
        }
    }
}

/// A record decodes only when it carries a non-empty name and a non-empty
/// owner login.
pub open spec fn record_ok(r: RawRecordModel) -> bool {
    &&& r.name matches Some(n) && n.len() > 0
    &&& r.owner_login matches Some(o) && o.len() > 0
}

/// A repository is private exactly when its record says `"private"`; any
/// other value, and an absent field, count as public.
pub open spec fn decoded_visibility(v: Option<Seq<char>>) -> Visibility {
    if v matches Some(s) && s == "private"@ {
        Visibility::Private
    } else {
        Visibility::Public
    }
}

/// A repository counts as not a fork only when its record plainly says so:
/// an absent or non-boolean `fork` field counts as a fork, and the filter's
/// fork gate then applies.
pub open spec fn decoded_fork(f: Option<bool>) -> bool {
    !(f matches Some(b) && !b)
}

/// The descriptor a well-formed record decodes to.
pub open spec fn decoded_record(r: RawRecordModel) -> DescriptorModel
    recommends
        record_ok(r),
{
    DescriptorModel {
        name: r.name->Some_0,
        owner: r.owner_login->Some_0,
        visibility: decoded_visibility(r.visibility),
        is_fork: decoded_fork(r.fork),
    }
}

fn str_eq(a: &str, b: &str) -> (r: bool)
    ensures
        r == (a@ == b@),
{
    let x = a.to_owned();
    let y = b.to_owned();
    x == y
}

/// Decodes one raw record into a repository descriptor; a missing or empty
/// `name` or `owner.login` is a decode failure.
pub fn decode_record(rec: &RawRecord) -> (r: Result<RepositoryDescriptor, SourceDecodeError>)
    ensures
        r is Ok <==> record_ok(rec@),
        r matches Ok(d) ==> d@ == decoded_record(rec@),
        r matches Err(e) ==> e == SourceDecodeError::InvalidRecord,
{
    let name = match &rec.name {
        Some(n) => {
            if n.as_str().is_empty() {
                return Err(SourceDecodeError::InvalidRecord);
            }
            n.clone()
        },
        None => {
            return Err(SourceDecodeError::InvalidRecord);
        },
    };
    let owner = match &rec.owner_login {
        Some(o) => {
            if o.as_str().is_empty() {
                return Err(SourceDecodeError::InvalidRecord);
            }
            o.clone()
        },
        None => {
            return Err(SourceDecodeError::InvalidRecord);
        },
    };
    let visibility = match &rec.visibility {
        Some(v) => {
            if str_eq(v.as_str(), "private") {
                Visibility::Private
            } else {
                Visibility::Public
            }
        },
        None => Visibility::Public,
    };
    let is_fork = match rec.fork {
        Some(b) => b,
        None => true,
    };
    Ok(RepositoryDescriptor { name, owner, visibility, is_fork })
}

/// A page decodes only when every record in it does.
pub open spec fn page_decodes(recs: Seq<RawRecordModel>) -> bool {
    forall|i: int| 0 <= i < recs.len() ==> record_ok(recs[i])
}

/// The descriptors a decoding page contributes: each record decoded, those
/// the filter accepts kept, in the order the page gave them.
pub open spec fn accepted_page(
    f: RunFilter,
    source_user: Seq<char>,
    recs: Seq<RawRecordModel>,
) -> Seq<DescriptorModel>
    decreases recs.len(),
{
    if recs.len() == 0 {
        Seq::empty()
    } else {
        let rest = accepted_page(f, source_user, recs.drop_last());
        let d = decoded_record(recs.last());
        if accepts(f, d, source_user) {
            rest.push(d)
        } else {
            rest
        }
    }
}

/// Decodes a whole page and filters it. The first bad record makes the whole
/// page fail with no descriptors at all; a decoding page yields exactly the
/// accepted descriptors, in page order.
pub fn process_page(f: &RunFilter, source_user: &String, page: &Vec<RawRecord>) -> (r: Result<
    Vec<RepositoryDescriptor>,
    SourceDecodeError,
>)
    ensures
        r is Ok <==> page_decodes(page@.map_values(|x: RawRecord| x@)),
        r matches Ok(v) ==> v@.map_values(|d: RepositoryDescriptor| d@) == accepted_page(
            *f,
            source_user@,
            page@.map_values(|x: RawRecord| x@),
        ),
        r matches Err(e) ==> e == SourceDecodeError::InvalidRecord,
{
    let ghost recs = page@.map_values(|x: RawRecord| x@);
    let mut out: Vec<RepositoryDescriptor> = Vec::new();
    let mut i: usize = 0;
    while i < page.len()
        invariant
            i <= page.len(),
            recs == page@.map_values(|x: RawRecord| x@),
            recs.len() == page@.len(),
            forall|j: int| 0 <= j < i ==> record_ok(recs[j]),
            out@.map_values(|d: RepositoryDescriptor| d@) =~= accepted_page(
                *f,
                source_user@,
                recs.take(i as int),
            ),
        decreases page.len() - i,
    {
        let rec = &page[i];
        match decode_record(rec) {
            Ok(d) => {
                proof {
                    assert(recs.take(i + 1).drop_last() =~= recs.take(i as int));
                    assert(recs.take(i + 1).last() == rec@);
                }
                if crate::filter::repo_accepted(f, &d, source_user) {
                    out.push(d);
                }
            },
            Err(e) => {
                proof {
                    assert(!record_ok(recs[i as int]));
                }
                return Err(e);
            },
        }
        i += 1;
    }
    proof {
        assert(recs.take(page@.len() as int) =~= recs);
    }
    Ok(out)
}

} // verus!
