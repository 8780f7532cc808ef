use vstd::prelude::*;
use crate::model::Message;
use crate::paths::{attachment_path, attachment_path_of};

verus! {

/// One attachment to fetch: where from, and the file to write it to.
#[derive(Debug, Clone, PartialEq, Eq)]
pub struct Download {
    pub url: String,
    pub path: String,
}

/// The (url, path) pair that a message's attachment asks for, if it has one.
pub open spec fn download_of(m: Message, dir: Seq<char>) -> Seq<(Seq<char>, Seq<char>)> {
    match m.attachment {
        Some(a) => seq![(a.url@, attachment_path_of(dir, m.date@, a.name@))],
        None => Seq::empty(),
    }
}

/// The downloads a page asks for, one per message with an attachment, in the
/// page's order.
pub open spec fn planned_downloads(page: Seq<Message>, dir: Seq<char>) -> Seq<
    (Seq<char>, Seq<char>),
>
    decreases page.len(),
{
    if page.len() == 0 {
        Seq::empty()
    } else {
        planned_downloads(page.drop_last(), dir) + download_of(page.last(), dir)
    }
}

pub open spec fn download_view(d: Download) -> (Seq<char>, Seq<char>) {
    (d.url@, d.path@)
}

/// The attachments of a page to fetch into `dir`. Each entry stands on its
/// own: a failed fetch of one leaves the others to be fetched.
pub fn plan_downloads(page: &Vec<Message>, dir: &String) -> (r: Vec<Download>)
    ensures
        r@.map_values(|d: Download| download_view(d)) == planned_downloads(page@, dir@),
{
    let mut r: Vec<Download> = Vec::new();
    let mut i: usize = 0;
    while i < page.len()
        invariant
            i <= page@.len(),
            r@.map_values(|d: Download| download_view(d)) == planned_downloads(
                page@.subrange(0, i as int),
                dir@,
            ),
        decreases page@.len() - i,
    {
        let m = &page[i];
        let ghost before = r@;
        match &m.attachment {
            Some(a) => {
                let path = attachment_path(dir, &m.date, &a.name);
                r.push(Download { url: a.url.clone(), path });
            },
            None => {},
        }
        proof {
            let prefix = page@.subrange(0, i + 1);
            assert(prefix.drop_last() =~= page@.subrange(0, i as int));
            assert(prefix.last() == page@[i as int]);
            assert(r@.map_values(|d: Download| download_view(d)) =~= before.map_values(
                |d: Download| download_view(d),
            ) + download_of(page@[i as int], dir@));
        }
        i = i + 1;
    }
    assert(page@.subrange(0, i as int) =~= page@);
    r
}

/// The downloads of a page are those of its parts, one after the other: what
/// one message asks for does not depend on any other message, so each
/// attachment is fetched whatever becomes of the others.
pub proof fn lemma_plan_splits(first: Seq<Message>, second: Seq<Message>, dir: Seq<char>)
    ensures
        planned_downloads(first + second, dir) == planned_downloads(first, dir)
            + planned_downloads(second, dir),
    decreases second.len(),
{
    if second.len() == 0 {
        assert(first + second =~= first);
        assert(planned_downloads(first, dir) + planned_downloads(second, dir) =~= planned_downloads(
            first,
            dir,
        ));
    } else {
        assert((first + second).drop_last() =~= first + second.drop_last());
        assert((first + second).last() == second.last());
        lemma_plan_splits(first, second.drop_last(), dir);
        assert(planned_downloads(first + second, dir) =~= planned_downloads(first, dir)
            + planned_downloads(second, dir));
    }
}

/// Every message with an attachment has its own entry in the plan of any page
/// it stands in, at a place fixed by the messages before it.
pub proof fn lemma_each_attachment_planned(
    before: Seq<Message>,
    m: Message,
    after: Seq<Message>,
    dir: Seq<char>,
)
    ensures
        planned_downloads(before + seq![m] + after, dir) == planned_downloads(before, dir)
            + download_of(m, dir) + planned_downloads(after, dir),
{
    lemma_plan_splits(before + seq![m], after, dir);
    lemma_plan_splits(before, seq![m], dir);
    assert(seq![m].drop_last() =~= Seq::<Message>::empty());
    assert(seq![m].last() == m);
    assert(planned_downloads(Seq::<Message>::empty(), dir) =~= Seq::empty());
    assert(planned_downloads(seq![m], dir) =~= download_of(m, dir));
}

} // verus!
