use vstd::prelude::*;

use crate::decode::{accepted_page, page_decodes, process_page, SourceDecodeError};
use crate::jsonval::{json_page_of, page_from_body};
use crate::model::{DescriptorModel, RawRecord, RawRecordModel, RepositoryDescriptor, RunFilter};

verus! {

/// Mathematical image of an `Enumeration`.
pub ghost struct EnumerationModel {
    pub filter: RunFilter,
    pub source_user: Seq<char>,
    pub next_page: int,
    pub done: bool,
    pub matches: Seq<DescriptorModel>,
}

/// A fresh enumeration: nothing matched yet, the first page to request is
/// page 1.
pub open spec fn enum_init(filter: RunFilter, source_user: Seq<char>) -> EnumerationModel {
    EnumerationModel {
        filter,
        source_user,
        next_page: 1,
        done: false,
        matches: Seq::empty(),
    }
}

/// One pagination step on the model, for a page that decodes: an empty page
/// is the sole termination condition and changes nothing else; a non-empty
/// page appends its accepted descriptors, in page order, and moves to the
/// next page number.
pub open spec fn enum_step(m: EnumerationModel, recs: Seq<RawRecordModel>) -> EnumerationModel
    recommends
        !m.done,
        page_decodes(recs),
{
    if recs.len() == 0 {
        EnumerationModel { done: true, ..m }
    } else {
        EnumerationModel {
            next_page: m.next_page + 1,
            matches: m.matches + accepted_page(m.filter, m.source_user, recs),
            ..m
        }
    }
}

/// The pagination loop's state: which page to request next, whether the
/// enumeration is over, and the descriptors accepted so far. The network is
/// not here — the caller fetches each page and feeds its body in — but every
/// decision is: decoding, filtering, accumulation and termination.
pub struct Enumeration {
    filter: RunFilter,
    source_user: String,
    next_page: u64,
    done: bool,
    matches: Vec<RepositoryDescriptor>,
}

impl View for Enumeration {
    type V = EnumerationModel;

    closed spec fn view(&self) -> EnumerationModel {
        EnumerationModel {
            filter: self.filter,
            source_user: self.source_user@,
            next_page: self.next_page as int,
            done: self.done,
            matches: self.matches@.map_values(|d: RepositoryDescriptor| d@),
        }
    }
}

impl Enumeration {
    pub fn new(filter: RunFilter, source_user: String) -> (r: Enumeration)
        ensures
            r@ == enum_init(filter, source_user@),
    {
        let r = Enumeration {
            filter,
            source_user,
            next_page: 1,
            done: false,
            matches: Vec::new(),
        };
        proof {
            assert(r@.matches =~= enum_init(r.filter, r.source_user@).matches);
        }
        r
    }

    /// Whether the enumeration has seen its empty page.
    pub fn is_done(&self) -> (r: bool)
        ensures
            r == self@.done,
    {
        self.done
    }

    /// The number of the page to request next; pages are numbered from 1.
    pub fn next_page(&self) -> (r: u64)
        ensures
            r as int == self@.next_page,
    {
        self.next_page
    }

    /// How many repositories matched so far.
    pub fn matched_count(&self) -> (r: usize)
        ensures
            r as int == self@.matches.len(),
    {
        self.matches.len()
    }

    /// Feeds one fetched page, already split into raw records. Returns
    /// whether another page must be requested. A page with a bad record
    /// fails the enumeration and leaves the state unchanged: no partial
    /// results, never a silent skip.
    pub fn feed_page(&mut self, page: &Vec<RawRecord>) -> (r: Result<bool, SourceDecodeError>)
        requires
            !old(self)@.done,
            old(self)@.next_page < u64::MAX as int,
        ensures
            r is Ok <==> page_decodes(page@.map_values(|x: RawRecord| x@)),
            r matches Ok(more) ==> final(self)@ == enum_step(
                old(self)@,
                page@.map_values(|x: RawRecord| x@),
            ) && more == !final(self)@.done && more == (page@.len() > 0),
            r matches Err(e) ==> e == SourceDecodeError::InvalidRecord && final(self)@ == old(
                self,
            )@,
    {
        let accepted = match process_page(&self.filter, &self.source_user, page) {
            Ok(v) => v,
            Err(e) => {
                return Err(e);
            },
        };
        if page.len() == 0 {
            self.done = true;
            proof {
                assert(final(self)@ =~= enum_step(
                    old(self)@,
                    page@.map_values(|x: RawRecord| x@),
                ));
            }
            Ok(false)
        } else {
            self.next_page = self.next_page + 1;
            let mut accepted = accepted;
            self.matches.append(&mut accepted);
            proof {
                assert(final(self)@.matches =~= enum_step(
                    old(self)@,
                    page@.map_values(|x: RawRecord| x@),
                ).matches);
                assert(final(self)@ =~= enum_step(
                    old(self)@,
                    page@.map_values(|x: RawRecord| x@),
                ));
            }
            Ok(true)
        }
    }

    /// Feeds one fetched page body as the source API sent it. The step taken
    /// is exactly `enum_step` on what the body parses to; a body that is not
    /// a JSON array, or holds a bad record, fails the enumeration and leaves
    /// the state unchanged, each failure under its own error.
    pub fn feed_body(&mut self, body: &str) -> (r: Result<bool, SourceDecodeError>)
        requires
            !old(self)@.done,
            old(self)@.next_page < u64::MAX as int,
        ensures
            r is Ok <==> (json_page_of(body@) matches Some(recs) && page_decodes(recs)),
            r matches Ok(more) ==> final(self)@ == enum_step(
                old(self)@,
                json_page_of(body@)->Some_0,
            ) && more == !final(self)@.done,
            r is Err ==> final(self)@ == old(self)@,
            r matches Err(e) ==> e == (if json_page_of(body@) is None {
                SourceDecodeError::MalformedPage
            } else {
                SourceDecodeError::InvalidRecord
            }),
    {
        let page = match page_from_body(body) {
            Ok(p) => p,
            Err(e) => {
                return Err(e);
            },
        };
        match self.feed_page(&page) {
            Ok(more) => Ok(more),
            Err(e) => Err(e),
        }
    }

    /// Hands out the matched repositories, in the order the source API
    /// produced them.
    pub fn into_matches(self) -> (r: Vec<RepositoryDescriptor>)
        ensures
            r@.map_values(|d: RepositoryDescriptor| d@) == self@.matches,
    {
        self.matches
    }
}

/// Pagination termination: from a fresh enumeration, two non-empty decoding
/// pages followed by an empty one end the run after exactly the three page
/// requests 1, 2 and 3, and yield exactly the accepted descriptors of the
/// two non-empty pages, in order.
pub proof fn lemma_pagination_termination(
    filter: RunFilter,
    source_user: Seq<char>,
    page1: Seq<RawRecordModel>,
    page2: Seq<RawRecordModel>,
)
    requires
        page1.len() > 0,
        page2.len() > 0,
        page_decodes(page1),
        page_decodes(page2),
    ensures
        ({
            let m0 = enum_init(filter, source_user);
            let m1 = enum_step(m0, page1);
            let m2 = enum_step(m1, page2);
            let m3 = enum_step(m2, Seq::<RawRecordModel>::empty());
            &&& !m1.done && m1.next_page == 2
            &&& !m2.done && m2.next_page == 3
            &&& m3.done && m3.next_page == 3
            &&& m3.matches == accepted_page(filter, source_user, page1) + accepted_page(
                filter,
                source_user,
                page2,
            )
        }),
{
    let m0 = enum_init(filter, source_user);
    let m1 = enum_step(m0, page1);
    let m2 = enum_step(m1, page2);
    let m3 = enum_step(m2, Seq::<RawRecordModel>::empty());
    assert(m3.matches =~= accepted_page(filter, source_user, page1) + accepted_page(
        filter,
        source_user,
        page2,
    ));
}

} // verus!
