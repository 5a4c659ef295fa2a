//! The conversion job end to end against its state machine: failure tallies,
//! the closing message, the progress announcement and the image replies.

use seatalk_tgs::job::{
    converted_extension, final_message_text, media_kind, ConversionJob, ItemOutcome, JobAction,
    JobPhase, MediaKind,
};
use seatalk_tgs::seatalk_api::api::send_group_message::GroupMessage;
use seatalk_tgs::telegram::{StickerItem, StickerSetInfo};

fn item(id: &str, video: bool, animated: bool) -> StickerItem {
    StickerItem { file_id: id.to_string(), is_video: video, is_animated: animated }
}

fn set_of(n: usize) -> StickerSetInfo {
    let mut stickers = Vec::new();
    for k in 0..n {
        stickers.push(item(&format!("file-{}", k), false, false));
    }
    StickerSetInfo { name: "Pack".to_string(), stickers }
}

fn text_content(m: &GroupMessage) -> String {
    match m {
        GroupMessage::Text { text, .. } => text.content.clone(),
        GroupMessage::Image { .. } => panic!("expected a text message"),
    }
}

/// Runs one job through the machine with the given per-item outcomes and
/// returns the closing message content.
fn run_job(outcomes: &[ItemOutcome]) -> String {
    let (job, action) = ConversionJob::start(
        "group-ok".to_string(),
        Some("trigger-1".to_string()),
        "@Bot /convert https://t.me/addstickers/Pack",
    );
    match &action {
        JobAction::FetchSet { set_name } => assert_eq!(set_name, "Pack"),
        other => panic!("expected the set fetch, got {:?}", other),
    }
    let (job, action) = job.on_set_result(Some(set_of(outcomes.len())));
    match &action {
        JobAction::Send(m) => {
            let txt = text_content(&m.message);
            assert!(txt.contains("stickers in sticker set: **Pack**"));
        },
        other => panic!("expected the progress post, got {:?}", other),
    }
    let mut job = job.on_progress_posted(Some("thread-7".to_string()));
    for o in outcomes {
        match job.next_action() {
            JobAction::ProcessItem { .. } => {},
            other => panic!("expected an item, got {:?}", other),
        }
        job = job.on_item(*o);
    }
    match job.next_action() {
        JobAction::Send(m) => {
            match &m.message {
                GroupMessage::Text { text, thread_id, quoted_message_id } => {
                    assert_eq!(thread_id.as_deref(), Some("thread-7"));
                    assert!(quoted_message_id.is_none());
                    text.content.clone()
                },
                other => panic!("expected a text message, got {:?}", other),
            }
        },
        other => panic!("expected the closing post, got {:?}", other),
    }
}

#[test]
fn job_with_no_failures_closes_with_done() {
    assert_eq!(
        run_job(&[ItemOutcome::Posted, ItemOutcome::Posted, ItemOutcome::Posted]),
        "Done"
    );
}

#[test]
fn job_with_failures_closes_with_tally() {
    let msg = run_job(&[
        ItemOutcome::Posted,
        ItemOutcome::DownloadFailed,
        ItemOutcome::ConvertFailed,
        ItemOutcome::Posted,
        ItemOutcome::PostFailed,
    ]);
    assert_eq!(msg, "Converted 2 of 5 stickers.\nSome sticker types are not supported yet ):");
}

#[test]
fn empty_set_closes_with_done_immediately() {
    assert_eq!(run_job(&[]), "Done");
}

#[test]
fn final_message_exact_values() {
    assert_eq!(final_message_text(0, 0), "Done");
    assert_eq!(final_message_text(7, 0), "Done");
    assert_eq!(
        final_message_text(10, 3),
        "Converted 7 of 10 stickers.\nSome sticker types are not supported yet ):"
    );
    assert_eq!(
        final_message_text(1, 1),
        "Converted 0 of 1 stickers.\nSome sticker types are not supported yet ):"
    );
}

#[test]
fn bad_command_posts_usage_hint_and_finishes() {
    let (job, action) = ConversionJob::start(
        "group-ok".to_string(),
        Some("trigger-1".to_string()),
        "no command here",
    );
    assert!(job.is_finished());
    match action {
        JobAction::Send(m) => {
            let txt = text_content(&m.message);
            assert!(txt.starts_with("Invalid Telegram sticker set URL\nExample usage:"));
            match m.message {
                GroupMessage::Text { quoted_message_id, thread_id, .. } => {
                    assert_eq!(quoted_message_id.as_deref(), Some("trigger-1"));
                    assert!(thread_id.is_none());
                },
                _ => unreachable!(),
            }
        },
        other => panic!("expected the usage hint, got {:?}", other),
    }
}

#[test]
fn unresolved_set_posts_invalid_reply_and_finishes() {
    let (job, _) = ConversionJob::start(
        "group-ok".to_string(),
        None,
        "/convert https://t.me/addstickers/Nope",
    );
    let (job, action) = job.on_set_result(None);
    assert!(job.is_finished());
    match action {
        JobAction::Send(m) => assert_eq!(text_content(&m.message), "Invalid Telegram sticker set URL"),
        other => panic!("expected the invalid-set reply, got {:?}", other),
    }
}

#[test]
fn failed_progress_post_finishes_the_job() {
    let (job, _) = ConversionJob::start(
        "group-ok".to_string(),
        None,
        "/convert https://t.me/addstickers/Pack",
    );
    let (job, _) = job.on_set_result(Some(set_of(2)));
    let job = job.on_progress_posted(None);
    assert!(job.is_finished());
}

#[test]
fn items_go_in_source_order_with_their_kinds() {
    let set = StickerSetInfo {
        name: "Mix".to_string(),
        stickers: vec![item("vid", true, false), item("anim", false, true), item("plain", false, false)],
    };
    let (job, _) = ConversionJob::start(
        "group-ok".to_string(),
        None,
        "/convert https://t.me/addstickers/Mix",
    );
    let (job, _) = job.on_set_result(Some(set));
    let mut job = job.on_progress_posted(Some("t".to_string()));
    let expected = [("vid", MediaKind::Video), ("anim", MediaKind::Animated), ("plain", MediaKind::Static)];
    for (k, (id, kind)) in expected.iter().enumerate() {
        match job.next_action() {
            JobAction::ProcessItem { index, file_id, kind: got } => {
                assert_eq!(index, k);
                assert_eq!(&file_id, id);
                assert_eq!(got, *kind);
            },
            other => panic!("expected an item, got {:?}", other),
        }
        job = job.on_item(ItemOutcome::Posted);
    }
}

#[test]
fn media_kinds_and_extensions() {
    assert_eq!(media_kind(&item("a", true, true)), MediaKind::Video);
    assert_eq!(media_kind(&item("a", false, true)), MediaKind::Animated);
    assert_eq!(media_kind(&item("a", false, false)), MediaKind::Static);
    assert_eq!(converted_extension(MediaKind::Video), "gif");
    assert_eq!(converted_extension(MediaKind::Animated), "gif");
    assert_eq!(converted_extension(MediaKind::Static), "png");
}

#[test]
fn image_reply_holds_base64_of_bytes_in_thread() {
    let job = ConversionJob {
        group_id: "g".to_string(),
        quoted_message_id: None,
        phase: JobPhase::Converting {
            thread_id: "thr".to_string(),
            items: vec![item("a", false, false)],
            next: 0,
            failed: 0,
        },
    };
    let m = job.image_reply(b"hello");
    assert_eq!(m.group_id, "g");
    match m.message {
        GroupMessage::Image { image, quoted_message_id, thread_id } => {
            assert_eq!(image.content, "aGVsbG8=");
            assert!(quoted_message_id.is_none());
            assert_eq!(thread_id.as_deref(), Some("thr"));
        },
        other => panic!("expected an image message, got {:?}", other),
    }
}
