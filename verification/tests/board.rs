use imageboard::entities::{NewThread, Post, Thread};
use imageboard::numbers::parse_i32;
use imageboard::pages::{
    found_posts_complete, post_views, IndexAction, IndexEvent, IndexPage, IndexStage, PostView,
};
use imageboard::payload::{is_file_field, FormPayload, Tmpfile, UplodFile};
use imageboard::posting::{PostAction, PostEvent, PostReply, PostStage, RawPost};

fn when() -> chrono::NaiveDateTime {
    chrono::NaiveDate::from_ymd_opt(2020, 3, 14)
        .unwrap()
        .and_hms_opt(15, 9, 26)
        .unwrap()
}

fn stored(pid: i32, tid: i32, auth: Option<&str>) -> Post {
    Post {
        pid,
        auth: auth.map(|s| s.to_string()),
        pdate: when(),
        subject: Some(format!("subject {}", pid)),
        comment: Some(format!("comment {}", pid)),
        sid: 1,
        tid,
    }
}

fn form(post: &str, reply: &str, subject: Option<&str>, subsection: &str) -> RawPost {
    RawPost {
        comment: "hello".to_string(),
        post: post.to_string(),
        reply: reply.to_string(),
        subject: subject.map(|s| s.to_string()),
        subsection: subsection.to_string(),
    }
}

#[test]
fn tmpfile_path_is_under_tmp() {
    let t = Tmpfile::new("cat.png");
    assert_eq!(t.name, "cat.png");
    assert_eq!(t.tmp_path, "./tmp/cat.png");
}

#[test]
fn tmpfile_of_empty_name() {
    let t = Tmpfile::new("");
    assert_eq!(t.name, "");
    assert_eq!(t.tmp_path, "./tmp/");
}

#[test]
fn upload_report_keeps_the_name() {
    let u = UplodFile::from(Tmpfile::new("a b.jpg"));
    assert_eq!(u.filename, "a b.jpg");
}

#[test]
fn parse_plain_and_signed_numbers() {
    assert_eq!(parse_i32("42"), Some(42));
    assert_eq!(parse_i32("+7"), Some(7));
    assert_eq!(parse_i32("-13"), Some(-13));
    assert_eq!(parse_i32("007"), Some(7));
    assert_eq!(parse_i32("-0"), Some(0));
}

#[test]
fn parse_limits_of_i32() {
    assert_eq!(parse_i32("2147483647"), Some(i32::MAX));
    assert_eq!(parse_i32("-2147483648"), Some(i32::MIN));
    assert_eq!(parse_i32("2147483648"), None);
    assert_eq!(parse_i32("-2147483649"), None);
    assert_eq!(parse_i32("99999999999999999999"), None);
}

#[test]
fn parse_rejects_what_from_str_rejects() {
    for s in ["", "-", "+", " 1", "1 ", "1a", "--1", "+-1", "1.0", "١"] {
        assert_eq!(parse_i32(s), None, "{:?}", s);
        assert_eq!(parse_i32(s), s.parse::<i32>().ok(), "{:?}", s);
    }
}

#[test]
fn parse_agrees_with_std() {
    for s in ["0", "12", "-12", "+2147483647", "2147483647", "-2147483648", "4294967296", "0000000000012"] {
        assert_eq!(parse_i32(s), s.parse::<i32>().ok(), "{:?}", s);
    }
}

#[test]
fn only_the_file_part_carries_files() {
    assert!(is_file_field("file"));
    assert!(!is_file_field("File"));
    assert!(!is_file_field("comment"));
}

#[test]
fn form_fields_become_sorted_json() {
    let mut p = FormPayload::new();
    assert!(p.add_text_chunk("post", b"Send"));
    assert!(p.add_text_chunk("comment", "hi \"there\"".as_bytes()));
    let (json, files) = p.finish();
    assert_eq!(json, "{\"comment\":\"hi \\\"there\\\"\",\"post\":\"Send\"}");
    assert!(files.is_empty());
}

#[test]
fn later_chunk_replaces_earlier_one() {
    let mut p = FormPayload::new();
    assert!(p.add_text_chunk("comment", b"first"));
    assert!(p.add_text_chunk("subject", b"s"));
    assert!(p.add_text_chunk("comment", b"second"));
    let (json, _) = p.finish();
    assert_eq!(json, "{\"comment\":\"second\",\"subject\":\"s\"}");
}

#[test]
fn invalid_utf8_chunk_changes_nothing() {
    let mut p = FormPayload::new();
    assert!(p.add_text_chunk("comment", b"ok"));
    assert!(!p.add_text_chunk("comment", &[0xff, 0xfe]));
    assert!(!p.add_text_chunk("subject", &[0xc0, 0x80]));
    let (json, _) = p.finish();
    assert_eq!(json, "{\"comment\":\"ok\"}");
}

#[test]
fn multibyte_text_is_decoded() {
    let mut p = FormPayload::new();
    assert!(p.add_text_chunk("comment", "こんにちは".as_bytes()));
    let (json, _) = p.finish();
    assert_eq!(json, "{\"comment\":\"こんにちは\"}");
}

#[test]
fn file_parts_are_staged_in_order() {
    let mut p = FormPayload::new();
    assert!(p.add_file_part(Some("a.png")));
    assert!(!p.add_file_part(None));
    assert!(p.add_file_part(Some("b.gif")));
    assert_eq!(p.files().len(), 2);
    let (json, files) = p.finish();
    assert_eq!(json, "{}");
    assert_eq!(files[0].tmp_path, "./tmp/a.png");
    assert_eq!(files[1].name, "b.gif");
}

#[test]
fn post_view_copies_the_post() {
    let p = stored(5, 2, Some("anon"));
    let v = PostView::from_post(&p);
    assert_eq!(v.pid, 5);
    assert_eq!(v.tid, 2);
    assert_eq!(v.sid, 1);
    assert_eq!(v.auth, "anon");
    assert_eq!(v.subject, "subject 5");
    assert_eq!(v.comment, "comment 5");
    assert_eq!(v.pdate, when());
}

#[test]
fn nothing_found_shows_no_posts() {
    assert!(post_views(&None).is_empty());
    assert!(found_posts_complete(&None));
}

#[test]
fn incomplete_posts_are_detected() {
    let found = Some(vec![stored(1, 1, Some("a")), stored(2, 1, None)]);
    assert!(!found_posts_complete(&found));
    let found = Some(vec![stored(1, 1, Some("a")), stored(2, 1, Some("b"))]);
    assert!(found_posts_complete(&found));
    let views = post_views(&found);
    assert_eq!(views.len(), 2);
    assert_eq!(views[1].auth, "b");
}

#[test]
fn front_page_asks_for_twenty_newest() {
    let (_page, action) = IndexPage::start();
    assert_eq!(action, IndexAction::LoadThreadIds { limit: 20, offset: 0 });
}

#[test]
fn front_page_gathers_threads_in_order() {
    let (mut page, _) = IndexPage::start();
    let ev = IndexEvent::ThreadIds(vec![9, 4]);
    assert!(page.accepts(&ev));
    assert_eq!(page.advance(ev), IndexAction::LoadPosts(9));
    let ev = IndexEvent::Posts(Some(vec![stored(30, 9, Some("x")), stored(31, 9, Some("y"))]));
    assert!(page.accepts(&ev));
    assert_eq!(page.advance(ev), IndexAction::LoadPosts(4));
    let ev = IndexEvent::Posts(None);
    assert!(page.accepts(&ev));
    assert_eq!(page.advance(ev), IndexAction::Render);
    assert_eq!(page.stage_now(), IndexStage::Done);
    let views = page.into_views();
    assert_eq!(views.len(), 2);
    assert_eq!(views[0].tid, 9);
    assert_eq!(views[0].posts.len(), 2);
    assert_eq!(views[0].posts[1].pid, 31);
    assert_eq!(views[1].tid, 4);
    assert!(views[1].posts.is_empty());
}

#[test]
fn front_page_without_threads_renders_at_once() {
    let (mut page, _) = IndexPage::start();
    assert_eq!(page.advance(IndexEvent::ThreadIds(vec![])), IndexAction::Render);
    assert!(page.into_views().is_empty());
}

#[test]
fn front_page_read_failure_is_500() {
    let (mut page, _) = IndexPage::start();
    assert_eq!(page.advance(IndexEvent::ThreadIds(vec![3])), IndexAction::LoadPosts(3));
    assert_eq!(page.advance(IndexEvent::DbFailed), IndexAction::ServerError);
    assert!(!page.accepts(&IndexEvent::DbFailed));
}

#[test]
fn front_page_refuses_incomplete_posts() {
    let (mut page, _) = IndexPage::start();
    page.advance(IndexEvent::ThreadIds(vec![3]));
    assert!(!page.accepts(&IndexEvent::Posts(Some(vec![stored(1, 3, None)]))));
    assert!(!page.accepts(&IndexEvent::ThreadIds(vec![1])));
}

#[test]
fn unreadable_form_is_400() {
    let ev = PostEvent::Parsed(None);
    assert!(PostStage::Start.accepts(&ev));
    let (stage, action) = PostStage::Start.advance(ev);
    assert!(matches!(stage, PostStage::Done));
    assert!(matches!(action, PostAction::Respond(PostReply::BadRequest)));
    assert_eq!(PostReply::BadRequest.status(), 400);
    assert_eq!(PostReply::BadRequest.location(), None);
}

#[test]
fn new_thread_takes_four_steps() {
    let (stage, action) =
        PostStage::Start.advance(PostEvent::Parsed(Some(form("Send", "", Some("hi"), "3"))));
    match action {
        PostAction::CreateThread(t) => assert_eq!(t, NewThread { first_floor: -1 }),
        other => panic!("{:?}", other),
    }
    let ev = PostEvent::ThreadCreated(Thread { tid: 17, first_floor: -1 });
    assert!(stage.accepts(&ev));
    let (stage, action) = stage.advance(ev);
    match &action {
        PostAction::CreatePost(d) => {
            assert_eq!(d.auth, "Nameless");
            assert_eq!(d.subject, "hi");
            assert_eq!(d.comment, "hello");
            assert_eq!(d.sid, 3);
            assert_eq!(d.tid, 17);
            let row = d.as_new_post();
            assert_eq!(row.auth, "Nameless");
            assert_eq!(row.tid, 17);
        }
        other => panic!("{:?}", other),
    }
    let (stage, action) = stage.advance(PostEvent::PostCreated(88));
    match action {
        PostAction::SetFirstFloor { thread_id, first_floor } => {
            assert_eq!(thread_id, 17);
            assert_eq!(first_floor, 88);
        }
        other => panic!("{:?}", other),
    }
    let (stage, action) = stage.advance(PostEvent::FirstFloorSet);
    assert!(matches!(stage, PostStage::Done));
    assert!(matches!(action, PostAction::Respond(PostReply::SeeOther)));
    assert_eq!(PostReply::SeeOther.status(), 303);
    assert_eq!(PostReply::SeeOther.location(), Some("/"));
}

#[test]
fn reply_writes_one_post() {
    let ev = PostEvent::Parsed(Some(form("Reply", "12", None, "-2")));
    assert!(PostStage::Start.accepts(&ev));
    let (stage, action) = PostStage::Start.advance(ev);
    match &action {
        PostAction::CreatePost(d) => {
            assert_eq!(d.subject, "");
            assert_eq!(d.sid, -2);
            assert_eq!(d.tid, 12);
        }
        other => panic!("{:?}", other),
    }
    let (stage, action) = stage.advance(PostEvent::PostCreated(5));
    assert!(matches!(stage, PostStage::Done));
    assert!(matches!(action, PostAction::Respond(PostReply::SeeOther)));
}

#[test]
fn reply_with_bad_numbers_is_not_taken() {
    let ev = PostEvent::Parsed(Some(form("Reply", "twelve", None, "1")));
    assert!(!PostStage::Start.accepts(&ev));
    let ev = PostEvent::Parsed(Some(form("Reply", "12", None, "")));
    assert!(!PostStage::Start.accepts(&ev));
}

#[test]
fn new_thread_with_bad_section_is_500_after_thread() {
    let ev = PostEvent::Parsed(Some(form("Send", "", None, "x")));
    assert!(PostStage::Start.accepts(&ev));
    let (stage, action) = PostStage::Start.advance(ev);
    assert!(matches!(action, PostAction::CreateThread(_)));
    let ev = PostEvent::ThreadCreated(Thread { tid: 1, first_floor: -1 });
    assert!(stage.accepts(&ev));
    let (stage, action) = stage.advance(ev);
    assert!(matches!(stage, PostStage::Done));
    assert!(matches!(action, PostAction::Respond(PostReply::ServerError)));
}

#[test]
fn new_thread_failed_post_write_is_500() {
    let (stage, _) =
        PostStage::Start.advance(PostEvent::Parsed(Some(form("Send", "", None, "4"))));
    let (stage, action) = stage.advance(PostEvent::ThreadCreated(Thread { tid: 2, first_floor: -1 }));
    assert!(matches!(action, PostAction::CreatePost(_)));
    let (stage, action) = stage.advance(PostEvent::DbFailed);
    assert!(matches!(stage, PostStage::Done));
    assert!(matches!(action, PostAction::Respond(PostReply::ServerError)));
}

#[test]
fn other_button_writes_nothing() {
    let (stage, action) =
        PostStage::Start.advance(PostEvent::Parsed(Some(form("Preview", "", None, "x"))));
    assert!(matches!(stage, PostStage::Done));
    assert!(matches!(action, PostAction::Respond(PostReply::SeeOther)));
}

#[test]
fn failed_write_is_500() {
    let (stage, _) =
        PostStage::Start.advance(PostEvent::Parsed(Some(form("Send", "", None, "1"))));
    assert!(stage.accepts(&PostEvent::DbFailed));
    let (stage, action) = stage.advance(PostEvent::DbFailed);
    assert!(matches!(action, PostAction::Respond(PostReply::ServerError)));
    assert_eq!(PostReply::ServerError.status(), 500);
    assert!(!stage.accepts(&PostEvent::DbFailed));
    assert!(!stage.accepts(&PostEvent::FirstFloorSet));
}

#[test]
fn start_takes_only_the_form() {
    assert!(!PostStage::Start.accepts(&PostEvent::DbFailed));
    assert!(!PostStage::Start.accepts(&PostEvent::PostCreated(1)));
}
