//! Event filter: decides which attachments of an inbound chat event qualify
//! for the add-song operation.
//!
//! An event qualifies only when it originates in the watched channel; of its
//! attachments, exactly those whose filename ends with the accepted archive
//! suffix become candidate items, in attachment order. Everything else is
//! silently skipped: a wrong channel, no attachments or no matching
//! attachment yields no candidates and so no reply at all.

use crate::text::ends_with;
use crate::text::ends_with_suffix;
use vstd::prelude::*;

verus! {

/// One attachment of an inbound chat event.
pub struct Attachment {
    pub filename: String,
    pub url: String,
}

/// Mathematical model of an attachment: its two fields as character
/// sequences.
pub struct AttachmentModel {
    pub filename: Seq<char>,
    pub url: Seq<char>,
}

impl View for Attachment {
    type V = AttachmentModel;

    open spec fn view(&self) -> AttachmentModel {
        AttachmentModel { filename: self.filename@, url: self.url@ }
    }
}

/// An inbound chat event, as the gateway hands it over: where it came from
/// and what it carries.
pub struct InboundEvent {
    pub origin_channel_id: String,
    pub attachments: Vec<Attachment>,
}

/// Mathematical model of an inbound event.
pub struct EventModel {
    pub origin_channel_id: Seq<char>,
    pub attachments: Seq<AttachmentModel>,
}

impl View for InboundEvent {
    type V = EventModel;

    open spec fn view(&self) -> EventModel {
        EventModel {
            origin_channel_id: self.origin_channel_id@,
            attachments: self.attachments@.map_values(|a: Attachment| a@),
        }
    }
}

/// One qualifying attachment or user-supplied URL, ready for dispatch.
pub struct CandidateItem {
    pub source_url: String,
    pub overwrite: bool,
}

/// Mathematical model of a candidate item.
pub struct CandidateModel {
    pub source_url: Seq<char>,
    pub overwrite: bool,
}

impl View for CandidateItem {
    type V = CandidateModel;

    open spec fn view(&self) -> CandidateModel {
        CandidateModel { source_url: self.source_url@, overwrite: self.overwrite }
    }
}

/// The accepted attachment suffix, matched exactly (case-sensitive).
pub open spec fn zip_suffix() -> Seq<char> {
    ".zip"@
}

/// Whether a filename qualifies an attachment for dispatch.
pub open spec fn is_zip_name(filename: Seq<char>) -> bool {
    ends_with(filename, zip_suffix())
}

/// The candidates drawn from a sequence of attachments: one per attachment
/// whose filename carries the accepted suffix, in attachment order, always
/// with `overwrite` set.
pub open spec fn candidates_of(atts: Seq<AttachmentModel>) -> Seq<CandidateModel>
    decreases atts.len(),
{
    if atts.len() == 0 {
        Seq::empty()
    } else {
        let rest = candidates_of(atts.drop_last());
        if is_zip_name(atts.last().filename) {
            rest.push(CandidateModel { source_url: atts.last().url, overwrite: true })
        } else {
            rest
        }
    }
}

/// What the filter yields for an event: nothing unless the event originates
/// in the watched channel, otherwise one candidate per qualifying
/// attachment.
pub open spec fn filter_spec(watched: Seq<char>, ev: EventModel) -> Seq<CandidateModel> {
    if ev.origin_channel_id != watched {
        Seq::empty()
    } else {
        candidates_of(ev.attachments)
    }
}

/// The models of a sequence of candidate items.
pub open spec fn candidate_views(items: Seq<CandidateItem>) -> Seq<CandidateModel> {
    items.map_values(|c: CandidateItem| c@)
}

/// Filters an inbound event against the watched channel, yielding the
/// candidate items to dispatch, in attachment order.
pub fn filter(watched: &String, ev: &InboundEvent) -> (r: Vec<CandidateItem>)
    ensures
        candidate_views(r@) == filter_spec(watched@, ev@),
        ev@.origin_channel_id != watched@ ==> r@.len() == 0,
        ev@.attachments.len() == 0 ==> r@.len() == 0,
{
    let mut out: Vec<CandidateItem> = Vec::new();
    proof {
        assert(candidate_views(out@) =~= Seq::<CandidateModel>::empty());
    }
    if !(ev.origin_channel_id == *watched) {
        return out;
    }
    let n = ev.attachments.len();
    let mut i: usize = 0;
    proof {
        assert(ev@.attachments.take(0) =~= Seq::<AttachmentModel>::empty());
    }
    while i < n
        invariant
            n == ev.attachments.len(),
            ev@.attachments.len() == n,
            i <= n,
            candidate_views(out@) == candidates_of(ev@.attachments.take(i as int)),
        decreases n - i,
    {
        let a = &ev.attachments[i];
        proof {
            assert(ev@.attachments.take(i + 1).drop_last() =~= ev@.attachments.take(i as int));
            assert(ev@.attachments.take(i + 1).last() == ev@.attachments[i as int]);
            assert(ev@.attachments[i as int] == ev.attachments@[i as int]@);
        }
        if ends_with_suffix(a.filename.as_str(), ".zip") {
            let item = CandidateItem { source_url: a.url.clone(), overwrite: true };
            proof {
                let pushed = CandidateModel { source_url: a.url@, overwrite: true };
                assert(candidate_views(out@.push(item)) =~= candidate_views(out@).push(pushed));
            }
            out.push(item);
        }
        i += 1;
    }
    proof {
        assert(ev@.attachments.take(n as int) =~= ev@.attachments);
    }
    out
}

/// Extension selectivity, the negative half: attachments without the
/// accepted suffix never yield a candidate.
pub proof fn lemma_no_candidate_without_suffix(atts: Seq<AttachmentModel>)
    requires
        forall|i: int| 0 <= i < atts.len() ==> !is_zip_name(atts[i].filename),
    ensures
        candidates_of(atts) == Seq::<CandidateModel>::empty(),
    decreases atts.len(),
{
    if atts.len() > 0 {
        assert(atts.last() == atts[atts.len() - 1]);
        lemma_no_candidate_without_suffix(atts.drop_last());
    }
}

/// Extension selectivity, the positive half: when every attachment
/// carries the accepted suffix, each yields exactly one candidate — its
/// URL, with the overwrite flag set — in attachment order.
pub proof fn lemma_every_qualifying_selected(atts: Seq<AttachmentModel>)
    requires
        forall|i: int| 0 <= i < atts.len() ==> is_zip_name(atts[i].filename),
    ensures
        candidates_of(atts).len() == atts.len(),
        forall|i: int|
            0 <= i < atts.len() ==> candidates_of(atts)[i] == (CandidateModel {
                source_url: atts[i].url,
                overwrite: true,
            }),
    decreases atts.len(),
{
    if atts.len() > 0 {
        assert(atts.last() == atts[atts.len() - 1]);
        lemma_every_qualifying_selected(atts.drop_last());
        assert forall|i: int| 0 <= i < atts.len() implies candidates_of(atts)[i]
            == (CandidateModel { source_url: atts[i].url, overwrite: true }) by {
            if i < atts.len() - 1 {
                assert(atts.drop_last()[i] == atts[i]);
            }
        }
    }
}

/// Filter correctness for foreign events: an event originating anywhere but
/// the watched channel yields no candidates, whatever it carries.
pub proof fn lemma_filter_wrong_channel(watched: Seq<char>, ev: EventModel)
    requires
        ev.origin_channel_id != watched,
    ensures
        filter_spec(watched, ev) == Seq::<CandidateModel>::empty(),
{
}

/// Filter correctness for bare events: an event from the watched channel
/// with no attachments yields no candidates.
pub proof fn lemma_filter_no_attachments(watched: Seq<char>, ev: EventModel)
    requires
        ev.origin_channel_id == watched,
        ev.attachments.len() == 0,
    ensures
        filter_spec(watched, ev) == Seq::<CandidateModel>::empty(),
{
}

} // verus!
