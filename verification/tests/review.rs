use danmu_terminal::input::EditorInput;
use danmu_terminal::keys::{KeyCode, KeyEvent, KeyKind};
use danmu_terminal::review::{
    body_lines, delivery_label, original_target, Execution, Reply, ReplyTarget, Review,
    ReviewAction, ReviewProblem, Surfaces,
};
use danmu_terminal::review_text::review_height;

fn reply(caller: &str, request: &str, text: &str) -> Reply {
    Reply {
        session: "scene".into(),
        caller: caller.into(),
        request_id: request.into(),
        revision: 1,
        text: text.into(),
        state: Execution::AwaitingApproval,
        reply_to: None,
        original_username: Some("观众".into()),
        retry_of: None,
        diagnosis: None,
    }
}

fn clear() -> Surfaces {
    Surfaces { secret: false, stopping: false, login: false, panel: false }
}

/// The reply is shown on the line above the draft.
fn paint(review: &mut Review, candidates: &Vec<Reply>, generation: u64) {
    review.prepare_review(false, candidates, generation);
    let line = review.review_line(candidates.len(), "主账号", 120).unwrap();
    review.shown_on_line(true, line.complete);
}

fn submit() -> KeyEvent {
    KeyEvent::shift(KeyCode::Enter)
}

#[test]
fn review_uses_only_the_seen_version_and_one_fresh_press() {
    let mut review = Review::new();
    let mut candidates = vec![reply("a", "one", "原候选")];
    assert!(matches!(
        review.review_key(submit(), clear(), &candidates, 1),
        ReviewAction::Warn(ReviewProblem::NotShown)
    ));
    paint(&mut review, &candidates, 1);
    candidates.push(reply("b", "two", "原候选"));
    assert_eq!(review.review_key(submit(), clear(), &candidates, 1), ReviewAction::Approve);
    assert_eq!(review.frame.as_ref().unwrap().reply.request_id, "one");
    review.approve_review();
    let first = candidates.remove(0);
    assert_eq!(first.request_id, "one");
    assert_ne!(review.review_key(submit(), clear(), &candidates, 1), ReviewAction::Approve);
    paint(&mut review, &candidates, 1);
    assert!(review.next_candidate(&candidates), "the first is still being sent");
    assert!(review.reviewed_reply(true, &candidates, 1).is_err());
    let mut held = submit();
    held.kind = KeyKind::Repeat;
    assert_eq!(review.review_key(held, clear(), &candidates, 1), ReviewAction::Nothing);
    review.clear_review_surface(Some(Execution::Confirmed));
    paint(&mut review, &candidates, 1);
    candidates[0].revision += 2;
    assert!(matches!(
        review.review_key(submit(), clear(), &candidates, 1),
        ReviewAction::Warn(ReviewProblem::ReplyChanged)
    ));
    paint(&mut review, &candidates, 1);
    assert!(matches!(
        review.review_key(submit(), clear(), &candidates, 2),
        ReviewAction::Warn(ReviewProblem::IdentityChanged)
    ));
    paint(&mut review, &candidates, 2);
    assert_eq!(review.review_key(submit(), clear(), &candidates, 2), ReviewAction::Approve);
    assert_eq!(review.frame.as_ref().unwrap().reply.request_id, "two");
}

#[test]
fn long_review_must_be_expanded_seen_and_reseen_after_edit() {
    let mut review = Review::new();
    let mut candidates = vec![reply("a", "one", &"需要逐页审核的正文".repeat(140))];
    paint(&mut review, &candidates, 1);
    assert_eq!(review.review_key(submit(), clear(), &candidates, 1), ReviewAction::Open);
    review.prepare_review(true, &candidates, 1);
    let lines = body_lines(&review.selected_candidate_text(&candidates, "主账号"), 60);
    review.look(&lines, 60, 10, 0);
    assert!(matches!(
        review.reviewed_reply(true, &candidates, 1),
        Err(ReviewProblem::NotSeenWhole)
    ));
    for page in 0..64 {
        review.look(&lines, 60, 10, page * 10);
    }
    assert!(review.reviewed_reply(true, &candidates, 1).is_ok());

    let mut input = EditorInput::from_text("人工草稿甲🙂乙");
    input.set_cursor(3);
    review.begin_candidate_edit(&mut input, &candidates, 1, clear()).unwrap();
    input.clear();
    input.insert_paste("编辑后的短正文\r\n/quit\u{3}", false);
    assert_eq!(input.as_str(), "编辑后的短正文 /quit");
    assert_eq!(review.review_key(submit(), clear(), &candidates, 1), ReviewAction::SaveEdit);
    assert!(review.check_edit(1).is_ok());
    assert!(review.check_edit(2).is_err());
    candidates[0].text = input.as_str().to_owned();
    candidates[0].revision += 1;
    review.finish_candidate_edit(&mut input);
    assert!(review.edit.is_none());
    assert_eq!(input.as_str(), "人工草稿甲🙂乙");
    assert_eq!(input.cursor(), 3);
    assert!(review.reviewed_reply(true, &candidates, 1).is_err());
    review.prepare_review(true, &candidates, 1);
    let lines = body_lines(&review.selected_candidate_text(&candidates, "主账号"), 60);
    review.look(&lines, 60, 40, 0);
    assert!(review.reviewed_reply(true, &candidates, 1).is_ok());
    review.approve_review();
    assert_eq!(review.frame.as_ref().unwrap().reply.text, "编辑后的短正文 /quit");
}

#[test]
fn bulk_send_rejects_an_identity_change_since_the_review_was_shown() {
    let mut review = Review::new();
    let candidates = vec![reply("a", "one", "原候选")];
    review.prepare_review(true, &candidates, 1);
    let lines = body_lines(&review.selected_candidate_text(&candidates, "主账号"), 60);
    review.look(&lines, 60, 40, 0);
    assert!(review.check_all("scene", 1, 1).is_ok());
    assert!(matches!(review.check_all("scene", 1, 2), Err(ReviewProblem::SceneChanged)));
    assert!(matches!(review.check_all("next", 1, 1), Err(ReviewProblem::SceneChanged)));
    assert!(matches!(review.check_all("scene", 0, 1), Err(ReviewProblem::NoCandidates)));
    assert!(matches!(Review::new().check_all("scene", 1, 1), Err(ReviewProblem::ListNotOpen)));
}

#[test]
fn what_is_open_hides_the_reply() {
    let mut review = Review::new();
    let candidates = vec![reply("a", "one", "原候选")];
    for open in [
        Surfaces { secret: true, ..clear() },
        Surfaces { stopping: true, ..clear() },
        Surfaces { login: true, ..clear() },
        Surfaces { panel: true, ..clear() },
    ] {
        paint(&mut review, &candidates, 1);
        assert_eq!(review.review_key(submit(), open, &candidates, 1), ReviewAction::Nothing);
    }
}

#[test]
fn fresh_review_press_reopens_after_a_missing_release_without_repeating() {
    let mut review = Review::new();
    let candidates = vec![reply("a", "one", &"待审核长回复".repeat(30))];
    paint(&mut review, &candidates, 1);
    assert_eq!(review.review_key(submit(), clear(), &candidates, 1), ReviewAction::Open);
    let mut held = submit();
    held.kind = KeyKind::Repeat;
    assert_eq!(review.review_key(held, clear(), &candidates, 1), ReviewAction::Nothing);
    paint(&mut review, &candidates, 1);
    assert_eq!(review.review_key(submit(), clear(), &candidates, 1), ReviewAction::Open);
}

#[test]
fn candidates_are_gone_through_in_turn() {
    let mut review = Review::new();
    let candidates = vec![reply("a", "one", "甲"), reply("b", "one", "乙")];
    review.select_candidate(&candidates);
    assert_eq!(review.selected_at(&candidates), Some(0));
    assert!(!review.next_candidate(&candidates));
    assert_eq!(review.selected_at(&candidates), Some(1));
    assert!(!review.next_candidate(&candidates));
    assert_eq!(review.selected_at(&candidates), Some(0));
    assert_eq!(review_height(&review, 0), 0);
    assert_eq!(review_height(&review, 2), 1);
}

#[test]
fn a_reply_says_whom_it_answers() {
    let mut addressed = reply("a", "one", "你好");
    addressed.reply_to = Some(ReplyTarget { username: "观众甲".into(), user_id: "42".into() });
    assert!(original_target(&addressed).contains("观众甲"));
    assert_ne!(
        delivery_label(Execution::Confirmed),
        delivery_label(Execution::Uncertain)
    );
    assert!(!ReviewProblem::Busy.message().is_empty());
}

#[test]
fn only_one_candidate_is_edited_at_a_time() {
    let mut review = Review::new();
    let mut input = EditorInput::from_text("草稿");
    let none: Vec<Reply> = vec![];
    assert!(matches!(
        review.begin_candidate_edit(&mut input, &none, 1, clear()),
        Err(ReviewProblem::NothingToEdit)
    ));
    let candidates = vec![reply("a", "one", "甲")];
    review.begin_candidate_edit(&mut input, &candidates, 1, clear()).unwrap();
    assert_eq!(input.as_str(), "甲");
    assert!(review.begin_candidate_edit(&mut input, &candidates, 1, clear()).is_err());
    review.finish_candidate_edit(&mut input);
    assert_eq!(input.as_str(), "草稿");
}
