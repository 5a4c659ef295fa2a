//! The background conversion job, as a state machine from job state and
//! outside event to next state and action. The driver performs the outside
//! work — resolving the set, downloading, converting, posting — and feeds
//! each outcome back; every decision, every reply text and the failure tally
//! are verified. Items go strictly in source order, and the closing message
//! is posted only after every item has been attempted exactly once.

use vstd::prelude::*;

use crate::seatalk_api::api::send_group_message::{GroupMessage, SendGroupMessage};
use crate::telegram::{StickerItem, StickerSetInfo};
use crate::text::{push_dec_u64, spec_dec};
use crate::webhook::spec_parse_set_name;
use crate::webhook::parse_sticker_set_name;

verus! {

/// How one sticker is converted, decided from its flags.
#[derive(Debug, Clone, Copy, PartialEq, Eq, Structural)]
pub enum MediaKind {
    Video,
    Animated,
    Static,
}

/// The video flag wins over the animated flag; everything else is static.
pub open spec fn spec_media_kind(is_video: bool, is_animated: bool) -> MediaKind {
    if is_video {
        MediaKind::Video
    } else if is_animated {
        MediaKind::Animated
    } else {
        MediaKind::Static
    }
}

/// The media kind of one sticker.
pub fn media_kind(item: &StickerItem) -> (k: MediaKind)
    ensures
        k == spec_media_kind(item.is_video, item.is_animated),
{
    if item.is_video {
        MediaKind::Video
    } else if item.is_animated {
        MediaKind::Animated
    } else {
        MediaKind::Static
    }
}

/// Converted animated forms become gif files, static ones png files.
pub open spec fn spec_converted_extension(k: MediaKind) -> Seq<char> {
    match k {
        MediaKind::Video => ("gif")@,
        MediaKind::Animated => ("gif")@,
        MediaKind::Static => ("png")@,
    }
}

/// The file extension of one converted item.
pub fn converted_extension(k: MediaKind) -> (e: &'static str)
    ensures
        e@ == spec_converted_extension(k),
{
    match k {
        MediaKind::Video => "gif",
        MediaKind::Animated => "gif",
        MediaKind::Static => "png",
    }
}

/// The outcome of attempting one item.
#[derive(Debug, Clone, Copy, PartialEq, Eq, Structural)]
pub enum ItemOutcome {
    /// Downloaded, converted and posted.
    Posted,
    /// The download failed, retries included.
    DownloadFailed,
    /// The conversion failed.
    ConvertFailed,
    /// The converted image could not be posted.
    PostFailed,
}

/// What one outcome adds to the failure tally.
pub open spec fn spec_outcome_cost(o: ItemOutcome) -> nat {
    if o is Posted {
        0
    } else {
        1
    }
}

/// The failure tally of a whole run.
pub open spec fn spec_failure_count(outs: Seq<ItemOutcome>) -> nat
    decreases outs.len(),
{
    if outs.len() == 0 {
        0
    } else {
        spec_outcome_cost(outs[0]) + spec_failure_count(outs.skip(1))
    }
}

/// The standard padded base64 encoding of `bytes`; a function of the bytes
/// alone.
pub uninterp spec fn base64_of(bytes: Seq<u8>) -> Seq<char>;

/// Relies on base64's `Engine::encode` with the STANDARD engine: the standard
/// alphabet with padding, four output characters for every three input bytes.
/// The engine panics only when that output length overflows `usize`, which
/// the bound on the input excludes.
#[verifier::external_body]
fn encode_base64(bytes: &[u8]) -> (r: String)
    requires
        bytes@.len() <= usize::MAX / 4,
    ensures
        r@ == base64_of(bytes@),
        r@.len() == 4 * ((bytes@.len() + 2) / 3),
{
    base64::Engine::encode(&base64::engine::general_purpose::STANDARD, bytes)
}

/// The progress announcement posted before the first item.
pub open spec fn spec_progress_message(count: nat, name: Seq<char>) -> Seq<char> {
    ("Found ")@ + spec_dec(count) + (" stickers in sticker set: **")@ + name + ("**")@
}

/// The closing message: exactly `Done` when nothing failed, else the tally of
/// what was converted.
pub open spec fn spec_final_message(total: nat, failed: nat) -> Seq<char>
    recommends
        failed <= total,
{
    if failed == 0 {
        ("Done")@
    } else {
        ("Converted ")@ + spec_dec((total - failed) as nat) + (" of ")@ + spec_dec(total) + (
        " stickers.\nSome sticker types are not supported yet ):")@
    }
}

/// Builds the progress announcement.
fn progress_text(count: usize, name: &str) -> (r: String)
    ensures
        r@ == spec_progress_message(count as nat, name@),
{
    let mut out = ("Found ").to_owned();
    push_dec_u64(&mut out, count as u64);
    out.append(" stickers in sticker set: **");
    out.append(name);
    out.append("**");
    out
}

/// Builds the closing message for a run of `total` items with `failed`
/// failures.
pub fn final_message_text(total: usize, failed: usize) -> (r: String)
    requires
        failed <= total,
    ensures
        r@ == spec_final_message(total as nat, failed as nat),
{
    if failed == 0 {
        ("Done").to_owned()
    } else {
        let mut out = ("Converted ").to_owned();
        push_dec_u64(&mut out, (total - failed) as u64);
        out.append(" of ");
        push_dec_u64(&mut out, total as u64);
        out.append(" stickers.\nSome sticker types are not supported yet ):");
        out
    }
}

/// Clones an optional string.
fn clone_opt_string(o: &Option<String>) -> (r: Option<String>)
    ensures
        r == *o,
{
    match o {
        Option::None => Option::None,
        Option::Some(s) => Option::Some(s.clone()),
    }
}

/// Where a job stands.
#[derive(Debug)]
pub enum JobPhase {
    /// Waiting for the named set to be resolved.
    FetchingSet { set_name: String },
    /// Waiting for the remote-assigned id of the progress post, which becomes
    /// the job's thread id.
    PostingProgress { name: String, items: Vec<StickerItem> },
    /// Attempting items one by one, in source order.
    Converting { thread_id: String, items: Vec<StickerItem>, next: usize, failed: usize },
    /// Nothing left to do.
    Finished,
}

/// What the driver must do next.
#[derive(Debug)]
pub enum JobAction {
    /// Post this message to the group.
    Send(SendGroupMessage),
    /// Resolve the named item collection.
    FetchSet { set_name: String },
    /// Download item `index`, convert it as `kind`, and post the result in
    /// the job's thread; then report the outcome.
    ProcessItem { index: usize, file_id: String, kind: MediaKind },
    /// The job is over.
    Done,
}

/// One conversion job, triggered by one group mention. Its own failures end
/// in a chat reply, never in a webhook-level error.
#[derive(Debug)]
pub struct ConversionJob {
    pub group_id: String,
    pub quoted_message_id: Option<String>,
    pub phase: JobPhase,
}

impl ConversionJob {
    /// The failure tally never exceeds the attempted count, which never
    /// exceeds the item count.
    pub open spec fn wf(&self) -> bool {
        match self.phase {
            JobPhase::Converting { next, failed, items, .. } => next <= items@.len() && failed
                <= next,
            _ => true,
        }
    }

    /// Starts a job for one triggering mention: a recognizable command asks
    /// for the named set; anything else posts the usage hint, quoting the
    /// trigger, and finishes.
    pub fn start(group_id: String, quoted_message_id: Option<String>, text: &str) -> (r: (
        ConversionJob,
        JobAction,
    ))
        ensures
            r.0.wf(),
            r.0.group_id@ == group_id@,
            r.0.quoted_message_id == quoted_message_id,
            (match spec_parse_set_name(text@) {
                Option::Some(name) => r.0.phase matches JobPhase::FetchingSet { set_name }
                    && set_name@ == name && (r.1 matches JobAction::FetchSet { set_name: n2 }
                && n2@ == name),
                Option::None => r.0.phase is Finished && (r.1 matches JobAction::Send(m)
                    && m.group_id@ == group_id@ && (m.message matches GroupMessage::Text {
                    text: t,
                    quoted_message_id: q,
                    thread_id: th,
                } && t.format == 1 && t.content@ == (
                "Invalid Telegram sticker set URL\nExample usage: `@StickersBot /convert  https://t.me/addstickers/Trashhagain`")@
                    && q == quoted_message_id && th is None)),
            }),
    {
        match parse_sticker_set_name(text) {
            Result::Ok(set_name) => {
                let action_name = set_name.clone();
                let job = ConversionJob {
                    group_id,
                    quoted_message_id,
                    phase: JobPhase::FetchingSet { set_name },
                };
                (job, JobAction::FetchSet { set_name: action_name })
            },
            Result::Err(_) => {
                let m = SendGroupMessage::new_text_message(
                    group_id.as_str(),
                    Option::None,
                    "Invalid Telegram sticker set URL\nExample usage: `@StickersBot /convert  https://t.me/addstickers/Trashhagain`",
                    clone_opt_string(&quoted_message_id),
                );
                let job = ConversionJob { group_id, quoted_message_id, phase: JobPhase::Finished };
                (job, JobAction::Send(m))
            },
        }
    }

    /// Feeds the set-resolution outcome: failure posts the invalid-set reply
    /// and finishes; success announces the item count and awaits the post's
    /// remote-assigned message id.
    pub fn on_set_result(self, result: Option<StickerSetInfo>) -> (r: (ConversionJob, JobAction))
        requires
            self.phase matches JobPhase::FetchingSet { .. },
        ensures
            r.0.wf(),
            r.0.group_id@ == self.group_id@,
            r.0.quoted_message_id == self.quoted_message_id,
            (match result {
                Option::None => r.0.phase is Finished && (r.1 matches JobAction::Send(m)
                    && m.group_id@ == self.group_id@ && (m.message matches GroupMessage::Text {
                    text: t,
                    quoted_message_id: q,
                    thread_id: th,
                } && t.format == 1 && t.content@ == ("Invalid Telegram sticker set URL")@ && q
                    == self.quoted_message_id && th is None)),
                Option::Some(set) => (r.0.phase matches JobPhase::PostingProgress { name, items }
                    && name@ == set.name@ && items@ == set.stickers@) && (r.1
                    matches JobAction::Send(m) && m.group_id@ == self.group_id@ && (m.message
                    matches GroupMessage::Text { text: t, quoted_message_id: q, thread_id: th }
                    && t.format == 1 && t.content@ == spec_progress_message(
                    set.stickers@.len(),
                    set.name@,
                ) && q == self.quoted_message_id && th is None)),
            }),
    {
        match result {
            Option::None => {
                let m = SendGroupMessage::new_text_message(
                    self.group_id.as_str(),
                    Option::None,
                    "Invalid Telegram sticker set URL",
                    clone_opt_string(&self.quoted_message_id),
                );
                let job = ConversionJob {
                    group_id: self.group_id,
                    quoted_message_id: self.quoted_message_id,
                    phase: JobPhase::Finished,
                };
                (job, JobAction::Send(m))
            },
            Option::Some(set) => {
                let txt = progress_text(set.stickers.len(), set.name.as_str());
                let m = SendGroupMessage::new_text_message(
                    self.group_id.as_str(),
                    Option::None,
                    txt.as_str(),
                    clone_opt_string(&self.quoted_message_id),
                );
                let job = ConversionJob {
                    group_id: self.group_id,
                    quoted_message_id: self.quoted_message_id,
                    phase: JobPhase::PostingProgress { name: set.name, items: set.stickers },
                };
                (job, JobAction::Send(m))
            },
        }
    }

    /// Feeds the progress post's outcome: without a message id the job cannot
    /// thread its replies and finishes; with one it starts converting at the
    /// first item with a clean tally.
    pub fn on_progress_posted(self, message_id: Option<String>) -> (r: ConversionJob)
        requires
            self.phase matches JobPhase::PostingProgress { .. },
        ensures
            r.wf(),
            r.group_id@ == self.group_id@,
            r.quoted_message_id == self.quoted_message_id,
            (match (message_id, self.phase) {
                (
                    Option::Some(mid),
                    JobPhase::PostingProgress { items, .. },
                ) => r.phase matches JobPhase::Converting {
                    thread_id,
                    items: it2,
                    next,
                    failed,
                } && thread_id@ == mid@ && it2@ == items@ && next == 0 && failed == 0,
                (Option::None, _) => r.phase is Finished,
                _ => true,
            }),
    {
        match message_id {
            Option::None => ConversionJob {
                group_id: self.group_id,
                quoted_message_id: self.quoted_message_id,
                phase: JobPhase::Finished,
            },
            Option::Some(mid) => {
                match self.phase {
                    JobPhase::PostingProgress { name: _, items } => ConversionJob {
                        group_id: self.group_id,
                        quoted_message_id: self.quoted_message_id,
                        phase: JobPhase::Converting { thread_id: mid, items, next: 0, failed: 0 },
                    },
                    other => ConversionJob {
                        group_id: self.group_id,
                        quoted_message_id: self.quoted_message_id,
                        phase: other,
                    },
                }
            },
        }
    }

    /// What the driver must do next while converting: attempt the next item
    /// in source order, or, after the last, post the closing message in the
    /// job's thread.
    pub fn next_action(&self) -> (a: JobAction)
        requires
            self.wf(),
            self.phase matches JobPhase::Converting { .. },
        ensures
            (match self.phase {
                JobPhase::Converting { thread_id, items, next, failed } => {
                    &&& next < items@.len() ==> (a matches JobAction::ProcessItem {
                        index,
                        file_id,
                        kind,
                    } && index == next && file_id@ == items@[next as int].file_id@ && kind
                        == spec_media_kind(
                        items@[next as int].is_video,
                        items@[next as int].is_animated,
                    ))
                    &&& next >= items@.len() ==> (a matches JobAction::Send(m) && m.group_id@
                        == self.group_id@ && (m.message matches GroupMessage::Text {
                        text: t,
                        quoted_message_id: q,
                        thread_id: th,
                    } && t.format == 1 && t.content@ == spec_final_message(
                        items@.len(),
                        failed as nat,
                    ) && q is None && (th matches Option::Some(tid) && tid@ == thread_id@)))
                },
                _ => true,
            }),
    {
        match &self.phase {
            JobPhase::Converting { thread_id, items, next, failed } => {
                if *next < items.len() {
                    let item = &items[*next];
                    JobAction::ProcessItem {
                        index: *next,
                        file_id: item.file_id.clone(),
                        kind: media_kind(item),
                    }
                } else {
                    let txt = final_message_text(items.len(), *failed);
                    JobAction::Send(
                        SendGroupMessage::new_text_message(
                            self.group_id.as_str(),
                            Option::Some(thread_id.clone()),
                            txt.as_str(),
                            Option::None,
                        ),
                    )
                }
            },
            _ => JobAction::Done,
        }
    }

    /// Records one attempted item: any failure adds exactly one to the tally,
    /// and the job advances to the next item either way.
    pub fn on_item(self, outcome: ItemOutcome) -> (r: ConversionJob)
        requires
            self.wf(),
            self.phase matches JobPhase::Converting { items, next, .. } && next < items@.len(),
        ensures
            r.wf(),
            r.group_id@ == self.group_id@,
            r.quoted_message_id == self.quoted_message_id,
            (match (self.phase, r.phase) {
                (
                    JobPhase::Converting { thread_id: t1, items: i1, next: n1, failed: f1 },
                    JobPhase::Converting { thread_id: t2, items: i2, next: n2, failed: f2 },
                ) => t2@ == t1@ && i2@ == i1@ && n2 == n1 + 1 && f2 == f1 + spec_outcome_cost(
                    outcome,
                ),
                _ => false,
            }),
    {
        match self.phase {
            JobPhase::Converting { thread_id, items, next, failed } => {
                let total = items.len();
                proof {
                    assert(next < total && failed <= next);
                }
                let new_failed = match outcome {
                    ItemOutcome::Posted => failed,
                    _ => failed + 1,
                };
                ConversionJob {
                    group_id: self.group_id,
                    quoted_message_id: self.quoted_message_id,
                    phase: JobPhase::Converting {
                        thread_id,
                        items,
                        next: next + 1,
                        failed: new_failed,
                    },
                }
            },
            other => ConversionJob {
                group_id: self.group_id,
                quoted_message_id: self.quoted_message_id,
                phase: other,
            },
        }
    }

    /// Whether the job has nothing left to do.
    pub fn is_finished(&self) -> (r: bool)
        ensures
            r == (self.phase is Finished),
    {
        match &self.phase {
            JobPhase::Finished => true,
            _ => false,
        }
    }

    /// The image reply for one converted item, posted inside the job's
    /// thread; its content is the base64 encoding of the converted bytes.
    pub fn image_reply(&self, converted: &[u8]) -> (m: SendGroupMessage)
        requires
            self.phase matches JobPhase::Converting { .. },
            converted@.len() <= usize::MAX / 4,
        ensures
            m.group_id@ == self.group_id@,
            (match self.phase {
                JobPhase::Converting { thread_id, .. } => m.message matches GroupMessage::Image {
                    image,
                    quoted_message_id: q,
                    thread_id: th,
                } && image.content@ == base64_of(converted@) && q is None && (th
                    matches Option::Some(tid) && tid@ == thread_id@),
                _ => true,
            }),
    {
        let content = encode_base64(converted);
        match &self.phase {
            JobPhase::Converting { thread_id, .. } => SendGroupMessage::new_image_message(
                self.group_id.as_str(),
                Option::Some(thread_id.clone()),
                content.as_str(),
                Option::None,
            ),
            _ => SendGroupMessage::new_image_message(
                self.group_id.as_str(),
                Option::None,
                content.as_str(),
                Option::None,
            ),
        }
    }
}

/// Attempting one more item grows the run's tally by exactly that item's
/// cost: counting failures one at a time agrees with counting them at once.
pub proof fn lemma_tally_step(outs: Seq<ItemOutcome>, o: ItemOutcome)
    ensures
        spec_failure_count(outs.push(o)) == spec_failure_count(outs) + spec_outcome_cost(o),
    decreases outs.len(),
{
    if outs.len() == 0 {
        assert(outs.push(o).skip(1) =~= Seq::<ItemOutcome>::empty());
        assert(outs.push(o)[0] == o);
        assert(spec_failure_count(Seq::<ItemOutcome>::empty()) == 0);
        assert(spec_failure_count(outs) == 0);
        assert(spec_failure_count(outs.push(o)) == spec_outcome_cost(o) + spec_failure_count(
            outs.push(o).skip(1),
        ));
    } else {
        assert(outs.push(o)[0] == outs[0]);
        assert(outs.push(o).skip(1) =~= outs.skip(1).push(o));
        lemma_tally_step(outs.skip(1), o);
        assert(spec_failure_count(outs.push(o)) == spec_outcome_cost(outs[0])
            + spec_failure_count(outs.skip(1).push(o)));
    }
}

proof fn lemma_failure_count_bound(outs: Seq<ItemOutcome>)
    ensures
        spec_failure_count(outs) <= outs.len(),
    decreases outs.len(),
{
    if outs.len() > 0 {
        lemma_failure_count_bound(outs.skip(1));
    }
}

/// After every one of a run's items has been attempted exactly once, the
/// failure tally is at most the item count, and the closing message is
/// exactly `Done` when and only when no item failed.
pub proof fn lemma_final_report(outs: Seq<ItemOutcome>)
    ensures
        spec_failure_count(outs) <= outs.len(),
        (spec_final_message(outs.len(), spec_failure_count(outs)) == ("Done")@) <==> (
        spec_failure_count(outs) == 0),
{
    lemma_failure_count_bound(outs);
    if spec_failure_count(outs) != 0 {
        reveal_strlit("Done");
        reveal_strlit("Converted ");
        crate::text::lemma_dec_len((outs.len() - spec_failure_count(outs)) as nat);
        assert(spec_final_message(outs.len(), spec_failure_count(outs)).len() > 4);
        assert(("Done")@.len() == 4);
    }
}

} // verus!
