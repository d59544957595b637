//! Remote address records: the model of what the provider stores, and the
//! paginated catalog that classifies the existing records of a hostname.
//!
//! The caller pages through the provider's list call and feeds each page to
//! [`RecordCatalog::ingest_page`]; the catalog filters out locked records,
//! sorts the rest into one record-id sequence per address family in the
//! order the provider returned them, and decides when the last page has
//! been seen (a page shorter than the page size).

use vstd::prelude::*;

use crate::interface::{Ipv4Address, Ipv6Address};

verus! {

/// The two kinds of address record the engine manages.
#[derive(Clone, Copy, PartialEq, Eq, Structural, Debug)]
pub enum AddressFamily {
    V4,
    V6,
}

/// What a remote record maps the hostname to. Records of any other type
/// are ignored by the engine.
#[derive(Clone, Copy, PartialEq, Eq, Structural, Debug)]
pub enum RecordContent {
    A(Ipv4Address),
    Aaaa(Ipv6Address),
    Other,
}

/// One record as fetched from the provider. `locked` marks a record not
/// eligible for mutation.
#[derive(Clone, Debug)]
pub struct RemoteRecord {
    pub id: String,
    pub content: RecordContent,
    pub locked: bool,
}

/// The ids of the non-locked records of one family, in provider order.
pub struct RecordIDs {
    pub v4_ids: Vec<String>,
    pub v6_ids: Vec<String>,
}

/// Whether a record belongs in the id sequence of the given family:
/// it must not be locked and must carry an address of that family.
pub open spec fn classifies(r: RemoteRecord, fam: AddressFamily) -> bool {
    &&& !r.locked
    &&& match fam {
        AddressFamily::V4 => r.content is A,
        AddressFamily::V6 => r.content is Aaaa,
    }
}

/// The id sequence one family gets from a record sequence: the ids of
/// exactly the records that classify into the family, kept in order.
pub open spec fn ids_of(rs: Seq<RemoteRecord>, fam: AddressFamily) -> Seq<Seq<char>>
    decreases rs.len(),
{
    if rs.len() == 0 {
        Seq::empty()
    } else {
        ids_of(rs.drop_last(), fam) + if classifies(rs.last(), fam) {
            seq![rs.last().id@]
        } else {
            Seq::<Seq<char>>::empty()
        }
    }
}

/// Classification distributes over concatenation: the records of two
/// batches classify to the two id sequences laid end to end.
pub proof fn lemma_ids_of_concat(a: Seq<RemoteRecord>, b: Seq<RemoteRecord>, fam: AddressFamily)
    ensures
        ids_of(a + b, fam) == ids_of(a, fam) + ids_of(b, fam),
    decreases b.len(),
{
    if b.len() == 0 {
        assert(a + b =~= a);
        assert(ids_of(a, fam) + ids_of(b, fam) =~= ids_of(a, fam));
    } else {
        assert((a + b).drop_last() =~= a + b.drop_last());
        assert((a + b).last() == b.last());
        lemma_ids_of_concat(a, b.drop_last(), fam);
        assert(ids_of(a + b, fam) =~= ids_of(a, fam) + ids_of(b, fam));
    }
}

/// Every record that classifies into a family has its id in the family's
/// id sequence: no eligible record is left out, however the records are
/// ordered or paged.
pub proof fn lemma_ids_of_complete(rs: Seq<RemoteRecord>, fam: AddressFamily, i: int)
    requires
        0 <= i < rs.len(),
        classifies(rs[i], fam),
    ensures
        ids_of(rs, fam).contains(rs[i].id@),
    decreases rs.len(),
{
    if i == rs.len() - 1 {
        let ids = ids_of(rs, fam);
        assert(ids.last() == rs[i].id@);
        assert(ids.contains(rs[i].id@));
    } else {
        lemma_ids_of_complete(rs.drop_last(), fam, i);
        let sub = ids_of(rs.drop_last(), fam);
        let j = choose|j: int| 0 <= j < sub.len() && sub[j] == rs[i].id@;
        assert(ids_of(rs, fam)[j] == rs[i].id@);
    }
}

/// Every id in a family's id sequence is the id of some record that
/// classifies into the family; in particular no locked record's id gets
/// in on its own account.
pub proof fn lemma_ids_of_sound(rs: Seq<RemoteRecord>, fam: AddressFamily, j: int)
    requires
        0 <= j < ids_of(rs, fam).len(),
    ensures
        exists|i: int|
            0 <= i < rs.len() && classifies(#[trigger] rs[i], fam) && rs[i].id@ == ids_of(
                rs,
                fam,
            )[j],
    decreases rs.len(),
{
    let ids = ids_of(rs, fam);
    let sub = ids_of(rs.drop_last(), fam);
    if j < sub.len() {
        lemma_ids_of_sound(rs.drop_last(), fam, j);
        let i = choose|i: int|
            0 <= i < rs.drop_last().len() && classifies(#[trigger] rs.drop_last()[i], fam)
                && rs.drop_last()[i].id@ == sub[j];
        assert(rs[i] == rs.drop_last()[i]);
        assert(ids[j] == sub[j]);
    } else {
        let i = rs.len() - 1;
        assert(classifies(rs[i], fam) && rs[i].id@ == ids[j]);
    }
}

/// The ids one family gets from the whole record set, one page at a time,
/// are the ids of the pages laid end to end: pagination loses nothing and
/// adds nothing, wherever the page boundaries fall.
pub proof fn lemma_pagination_complete(pages: Seq<Seq<RemoteRecord>>, fam: AddressFamily)
    ensures
        ids_of(pages.flatten(), fam) == pages.map_values(
            |p: Seq<RemoteRecord>| ids_of(p, fam),
        ).flatten(),
    decreases pages.len(),
{
    let f = |p: Seq<RemoteRecord>| ids_of(p, fam);
    if pages.len() == 0 {
        assert(pages.flatten() =~= Seq::<RemoteRecord>::empty());
        assert(pages.map_values(f).flatten() =~= Seq::<Seq<char>>::empty());
        assert(ids_of(pages.flatten(), fam) =~= pages.map_values(f).flatten());
    } else {
        lemma_pagination_complete(pages.drop_first(), fam);
        lemma_ids_of_concat(pages.first(), pages.drop_first().flatten(), fam);
        assert(pages.flatten() == pages.first() + pages.drop_first().flatten());
        assert(pages.map_values(f).drop_first() =~= pages.drop_first().map_values(f));
        assert(pages.map_values(f).flatten() == f(pages.first()) + pages.map_values(
            f,
        ).drop_first().flatten());
        assert(ids_of(pages.flatten(), fam) =~= pages.map_values(f).flatten());
    }
}

/// The classified ids of the records seen so far, together with the
/// pagination state: the next page to ask for, and whether the last page
/// has already been seen.
pub struct RecordCatalog {
    pub ids: RecordIDs,
    pub next_page: u32,
    pub complete: bool,
}

impl RecordCatalog {
    /// A fresh catalog: nothing classified, paging starts at page one.
    pub fn new() -> (r: RecordCatalog)
        ensures
            r.ids.v4_ids@ == Seq::<String>::empty(),
            r.ids.v6_ids@ == Seq::<String>::empty(),
            r.next_page == 1,
            !r.complete,
    {
        RecordCatalog { ids: RecordIDs { v4_ids: Vec::new(), v6_ids: Vec::new() }, next_page: 1, complete: false }
    }

    /// Take in one page of records, fetched with the given page size:
    /// append the page's classified ids per family, skip locked records
    /// and records of other types, and stop paging exactly when the page
    /// ran short of the page size.
    pub fn ingest_page(&mut self, page: Vec<RemoteRecord>, page_size: usize)
        requires
            !old(self).complete,
            old(self).next_page < u32::MAX,
        ensures
            final(self).ids.v4_ids.deep_view() == old(self).ids.v4_ids.deep_view() + ids_of(
                page@,
                AddressFamily::V4,
            ),
            final(self).ids.v6_ids.deep_view() == old(self).ids.v6_ids.deep_view() + ids_of(
                page@,
                AddressFamily::V6,
            ),
            final(self).complete == (page@.len() < page_size),
            final(self).next_page == old(self).next_page + 1,
    {
        self.complete = page.len() < page_size;
        self.next_page = self.next_page + 1;
        let mut i: usize = 0;
        while i < page.len()
            invariant
                i <= page@.len(),
                self.ids.v4_ids.deep_view() == old(self).ids.v4_ids.deep_view() + ids_of(
                    page@.take(i as int),
                    AddressFamily::V4,
                ),
                self.ids.v6_ids.deep_view() == old(self).ids.v6_ids.deep_view() + ids_of(
                    page@.take(i as int),
                    AddressFamily::V6,
                ),
                self.complete == (page@.len() < page_size),
                self.next_page == old(self).next_page + 1,
            decreases page@.len() - i,
        {
            proof {
                lemma_ids_of_take_step(page@, i as int, AddressFamily::V4);
                lemma_ids_of_take_step(page@, i as int, AddressFamily::V6);
            }
            let ghost prev_v4 = self.ids.v4_ids.deep_view();
            let ghost prev_v6 = self.ids.v6_ids.deep_view();
            let record = &page[i];
            if !record.locked {
                match &record.content {
                    RecordContent::A(_) => {
                        self.ids.v4_ids.push(record.id.clone());
                    },
                    RecordContent::Aaaa(_) => {
                        self.ids.v6_ids.push(record.id.clone());
                    },
                    RecordContent::Other => {},
                }
            }
            proof {
                if classifies(page@[i as int], AddressFamily::V4) {
                    assert(self.ids.v4_ids.deep_view() =~= prev_v4.push(page@[i as int].id@));
                } else {
                    assert(self.ids.v4_ids.deep_view() == prev_v4);
                }
                if classifies(page@[i as int], AddressFamily::V6) {
                    assert(self.ids.v6_ids.deep_view() =~= prev_v6.push(page@[i as int].id@));
                } else {
                    assert(self.ids.v6_ids.deep_view() == prev_v6);
                }
                assert(self.ids.v4_ids.deep_view() =~= old(self).ids.v4_ids.deep_view() + ids_of(
                    page@.take(i as int + 1),
                    AddressFamily::V4,
                ));
                assert(self.ids.v6_ids.deep_view() =~= old(self).ids.v6_ids.deep_view() + ids_of(
                    page@.take(i as int + 1),
                    AddressFamily::V6,
                ));
            }
            i = i + 1;
        }
        proof {
            assert(page@.take(page@.len() as int) =~= page@);
        }
    }
}

/// Classifying one more record appends its id to its family's sequence,
/// and nothing to the other's.
proof fn lemma_ids_of_take_step(s: Seq<RemoteRecord>, i: int, fam: AddressFamily)
    requires
        0 <= i < s.len(),
    ensures
        ids_of(s.take(i + 1), fam) == ids_of(s.take(i), fam) + if classifies(s[i], fam) {
            seq![s[i].id@]
        } else {
            Seq::<Seq<char>>::empty()
        },
{
    assert(s.take(i + 1).drop_last() =~= s.take(i));
    assert(s.take(i + 1).last() == s[i]);
}

} // verus!
