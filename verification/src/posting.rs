//! What a submitted post form makes the board do. Handling a submission
//! alternates database writes with decisions; the decisions are the state
//! machine `PostStage`, which is told what the last write gave and answers
//! with the next write to make, or the reply to send.
use vstd::prelude::*;
use crate::entities::{NewPost, NewThread, Thread};
use crate::numbers::{parse_i32, parse_i32_spec};

verus! {

/// A post form as submitted: the text, the button pressed (`post`), the thread
/// replied to, the optional subject and the board section.
#[derive(Debug)]
pub struct RawPost {
    pub comment: String,
    pub post: String,
    pub reply: String,
    pub subject: Option<String>,
    pub subsection: String,
}

/// The contents of a submitted form.
pub struct RawPostView {
    pub comment: Seq<char>,
    pub post: Seq<char>,
    pub reply: Seq<char>,
    pub subject: Option<Seq<char>>,
    pub subsection: Seq<char>,
}

impl View for RawPost {
    type V = RawPostView;

    open spec fn view(&self) -> RawPostView {
        RawPostView {
            comment: self.comment@,
            post: self.post@,
            reply: self.reply@,
            subject: match self.subject {
                Some(s) => Some(s@),
                None => None,
            },
            subsection: self.subsection@,
        }
    }
}

/// The values of a post that is about to be written.
#[derive(Debug)]
pub struct PostDraft {
    pub auth: String,
    pub subject: String,
    pub comment: String,
    pub sid: i32,
    pub tid: i32,
}

/// The contents of a post about to be written.
pub struct PostDraftView {
    pub auth: Seq<char>,
    pub subject: Seq<char>,
    pub comment: Seq<char>,
    pub sid: i32,
    pub tid: i32,
}

impl View for PostDraft {
    type V = PostDraftView;

    open spec fn view(&self) -> PostDraftView {
        PostDraftView {
            auth: self.auth@,
            subject: self.subject@,
            comment: self.comment@,
            sid: self.sid,
            tid: self.tid,
        }
    }
}

impl PostDraft {
    /// The row to insert for this draft.
    pub fn as_new_post(&self) -> (p: NewPost<'_>)
        ensures
            p.auth@ == self.auth@,
            p.subject@ == self.subject@,
            p.comment@ == self.comment@,
            p.sid == self.sid,
            p.tid == self.tid,
    {
        NewPost {
            auth: self.auth.as_str(),
            subject: self.subject.as_str(),
            comment: self.comment.as_str(),
            sid: self.sid,
            tid: self.tid,
        }
    }
}

/// The name under which every post is written.
pub open spec fn anonymous_author() -> Seq<char> {
    "Nameless"@
}

/// The label of the button that opens a new thread.
pub open spec fn new_thread_label() -> Seq<char> {
    "Send"@
}

/// The label of the button that answers a thread.
pub open spec fn reply_label() -> Seq<char> {
    "Reply"@
}

/// The post written for the form `raw` in section `sid` of thread `tid`:
/// anonymous, with the form's subject (empty when it has none) and comment.
pub open spec fn draft_of(raw: RawPostView, sid: i32, tid: i32) -> PostDraftView {
    PostDraftView {
        auth: anonymous_author(),
        subject: match raw.subject {
            Some(s) => s,
            None => Seq::empty(),
        },
        comment: raw.comment,
        sid,
        tid,
    }
}

/// The reply sent when handling a form ends.
#[derive(Debug, PartialEq, Eq, Structural, Copy, Clone)]
pub enum PostReply {
    /// 303: go back to the board's front page.
    SeeOther,
    /// 400: the form could not be read.
    BadRequest,
    /// 500: a database write failed.
    ServerError,
}

impl PostReply {
    /// The HTTP status of the reply.
    pub fn status(&self) -> (code: u16)
        ensures
            *self == PostReply::SeeOther ==> code == 303,
            *self == PostReply::BadRequest ==> code == 400,
            *self == PostReply::ServerError ==> code == 500,
    {
        match self {
            PostReply::SeeOther => 303,
            PostReply::BadRequest => 400,
            PostReply::ServerError => 500,
        }
    }

    /// Where the reply sends the browser, if anywhere: the front page `/` for `SeeOther`.
    pub fn location(&self) -> (l: Option<&'static str>)
        ensures
            *self == PostReply::SeeOther ==> l is Some && l->0@ == "/"@,
            *self != PostReply::SeeOther ==> l is None,
    {
        match self {
            PostReply::SeeOther => Some("/"),
            _ => None,
        }
    }
}

/// Where handling a form stands.
#[derive(Debug)]
pub enum PostStage {
    /// Nothing read yet.
    Start,
    /// A new thread is being created for this form.
    AwaitThread(RawPost),
    /// The opening post of this thread is being written.
    AwaitFirstPost(i32),
    /// The thread is being pointed at its opening post.
    AwaitFirstFloor,
    /// A reply is being written.
    AwaitReplyPost,
    /// The reply has been decided; nothing more happens.
    Done,
}

/// What the handler learns: the form as read (`None` when it was not a valid
/// form), or the outcome of the last write.
#[derive(Debug)]
pub enum PostEvent {
    Parsed(Option<RawPost>),
    ThreadCreated(Thread),
    PostCreated(i32),
    FirstFloorSet,
    DbFailed,
}

/// What the handler does next.
#[derive(Debug)]
pub enum PostAction {
    /// Insert this thread row.
    CreateThread(NewThread),
    /// Insert this post.
    CreatePost(PostDraft),
    /// Set the opening post of thread `thread_id` to `first_floor`.
    SetFirstFloor { thread_id: i32, first_floor: i32 },
    /// Send this reply.
    Respond(PostReply),
}

/// `PostStage` as a value.
pub enum PostStageView {
    Start,
    AwaitThread(RawPostView),
    AwaitFirstPost(i32),
    AwaitFirstFloor,
    AwaitReplyPost,
    Done,
}

/// `PostEvent` as a value.
pub enum PostEventView {
    Parsed(Option<RawPostView>),
    ThreadCreated(Thread),
    PostCreated(i32),
    FirstFloorSet,
    DbFailed,
}

/// `PostAction` as a value.
pub enum PostActionView {
    CreateThread(NewThread),
    CreatePost(PostDraftView),
    SetFirstFloor { thread_id: i32, first_floor: i32 },
    Respond(PostReply),
}

impl View for PostStage {
    type V = PostStageView;

    open spec fn view(&self) -> PostStageView {
        match self {
            PostStage::Start => PostStageView::Start,
            PostStage::AwaitThread(raw) => PostStageView::AwaitThread(raw@),
            PostStage::AwaitFirstPost(tid) => PostStageView::AwaitFirstPost(*tid),
            PostStage::AwaitFirstFloor => PostStageView::AwaitFirstFloor,
            PostStage::AwaitReplyPost => PostStageView::AwaitReplyPost,
            PostStage::Done => PostStageView::Done,
        }
    }
}

impl View for PostEvent {
    type V = PostEventView;

    open spec fn view(&self) -> PostEventView {
        match self {
            PostEvent::Parsed(Some(raw)) => PostEventView::Parsed(Some(raw@)),
            PostEvent::Parsed(None) => PostEventView::Parsed(None),
            PostEvent::ThreadCreated(t) => PostEventView::ThreadCreated(*t),
            PostEvent::PostCreated(pid) => PostEventView::PostCreated(*pid),
            PostEvent::FirstFloorSet => PostEventView::FirstFloorSet,
            PostEvent::DbFailed => PostEventView::DbFailed,
        }
    }
}

impl View for PostAction {
    type V = PostActionView;

    open spec fn view(&self) -> PostActionView {
        match self {
            PostAction::CreateThread(t) => PostActionView::CreateThread(*t),
            PostAction::CreatePost(d) => PostActionView::CreatePost(d@),
            PostAction::SetFirstFloor { thread_id, first_floor } => PostActionView::SetFirstFloor {
                thread_id: *thread_id,
                first_floor: *first_floor,
            },
            PostAction::Respond(r) => PostActionView::Respond(*r),
        }
    }
}

/// `event` is one that can come in `stage`: the form comes first, then the
/// outcome of the write that the stage waits for (or a failed write).
pub open spec fn post_event_fits(stage: PostStageView, event: PostEventView) -> bool {
    match stage {
        PostStageView::Start => event is Parsed,
        PostStageView::AwaitThread(_) => event is ThreadCreated || event is DbFailed,
        PostStageView::AwaitFirstPost(_) => event is PostCreated || event is DbFailed,
        PostStageView::AwaitFirstFloor => event is FirstFloorSet || event is DbFailed,
        PostStageView::AwaitReplyPost => event is PostCreated || event is DbFailed,
        PostStageView::Done => false,
    }
}

/// The numbers a reply needs cannot be read: its section or its thread is not
/// a number. Handling the form stops there.
pub open spec fn post_numbers_missing(stage: PostStageView, event: PostEventView) -> bool {
    match (stage, event) {
        (PostStageView::Start, PostEventView::Parsed(Some(raw))) => raw.post != new_thread_label()
            && raw.post == reply_label() && (parse_i32_spec(raw.subsection) is None
            || parse_i32_spec(raw.reply) is None),
        _ => false,
    }
}

/// The handler takes `event` in `stage`.
pub open spec fn post_accepts(stage: PostStageView, event: PostEventView) -> bool {
    post_event_fits(stage, event) && !post_numbers_missing(stage, event)
}

/// The next stage and action when `event` comes in `stage`:
/// - an unreadable form is answered 400;
/// - `Send` creates a thread whose opening post is not yet known (`-1`), then
///   writes the form's post into it, then makes that post the thread's opening
///   post, then sends the browser to the front page; when the section is not a
///   number, the post is not written once the thread exists, and the answer is 500;
/// - `Reply` writes the form's post into the thread it names, then sends the
///   browser to the front page;
/// - any other button writes nothing and sends the browser to the front page;
/// - a failed write is answered 500.
pub open spec fn post_next(stage: PostStageView, event: PostEventView) -> (PostStageView, PostActionView) {
    match (stage, event) {
        (PostStageView::Start, PostEventView::Parsed(None)) => (
            PostStageView::Done,
            PostActionView::Respond(PostReply::BadRequest),
        ),
        (PostStageView::Start, PostEventView::Parsed(Some(raw))) => {
            if raw.post == new_thread_label() {
                (
                    PostStageView::AwaitThread(raw),
                    PostActionView::CreateThread(NewThread { first_floor: -1i32 }),
                )
            } else if raw.post == reply_label() {
                (
                    PostStageView::AwaitReplyPost,
                    PostActionView::CreatePost(
                        draft_of(
                            raw,
                            parse_i32_spec(raw.subsection)->0,
                            parse_i32_spec(raw.reply)->0,
                        ),
                    ),
                )
            } else {
                (PostStageView::Done, PostActionView::Respond(PostReply::SeeOther))
            }
        },
        (PostStageView::AwaitThread(raw), PostEventView::ThreadCreated(t)) => {
            match parse_i32_spec(raw.subsection) {
                Some(sid) => (
                    PostStageView::AwaitFirstPost(t.tid),
                    PostActionView::CreatePost(draft_of(raw, sid, t.tid)),
                ),
                None => (PostStageView::Done, PostActionView::Respond(PostReply::ServerError)),
            }
        },
        (PostStageView::AwaitFirstPost(tid), PostEventView::PostCreated(pid)) => (
            PostStageView::AwaitFirstFloor,
            PostActionView::SetFirstFloor { thread_id: tid, first_floor: pid },
        ),
        (PostStageView::AwaitFirstFloor, PostEventView::FirstFloorSet) => (
            PostStageView::Done,
            PostActionView::Respond(PostReply::SeeOther),
        ),
        (PostStageView::AwaitReplyPost, PostEventView::PostCreated(_)) => (
            PostStageView::Done,
            PostActionView::Respond(PostReply::SeeOther),
        ),
        (_, PostEventView::DbFailed) => (
            PostStageView::Done,
            PostActionView::Respond(PostReply::ServerError),
        ),
        _ => (stage, PostActionView::Respond(PostReply::ServerError)),
    }
}

fn text_is(s: &String, label: &str) -> (b: bool)
    ensures
        b == (s@ == label@),
{
    let l = String::from_str(label);
    *s == l
}

/// The post written for `raw` in section `sid` of thread `tid` (see `draft_of`).
fn draft_for(raw: &RawPost, sid: i32, tid: i32) -> (d: PostDraft)
    ensures
        d@ == draft_of(raw@, sid, tid),
        d.auth@ == "Nameless"@,
        d.comment@ == raw.comment@,
        raw.subject matches Some(s) ==> d.subject@ == s@,
        raw.subject is None ==> d.subject@ == Seq::<char>::empty(),
        d.sid == sid,
        d.tid == tid,
{
    let subject = match &raw.subject {
        Some(s) => s.clone(),
        None => String::new(),
    };
    PostDraft { auth: String::from_str("Nameless"), subject, comment: raw.comment.clone(), sid, tid }
}

impl PostStage {
    /// Whether the handler takes `event` now (see `post_accepts`). When it does
    /// not because a number cannot be read, handling the form stops.
    pub fn accepts(&self, event: &PostEvent) -> (b: bool)
        ensures
            b == post_accepts(self@, event@),
    {
        let fits = match (self, event) {
            (PostStage::Start, PostEvent::Parsed(_)) => true,
            (PostStage::AwaitThread(_), PostEvent::ThreadCreated(_)) => true,
            (PostStage::AwaitFirstPost(_), PostEvent::PostCreated(_)) => true,
            (PostStage::AwaitFirstFloor, PostEvent::FirstFloorSet) => true,
            (PostStage::AwaitReplyPost, PostEvent::PostCreated(_)) => true,
            (PostStage::AwaitThread(_), PostEvent::DbFailed) => true,
            (PostStage::AwaitFirstPost(_), PostEvent::DbFailed) => true,
            (PostStage::AwaitFirstFloor, PostEvent::DbFailed) => true,
            (PostStage::AwaitReplyPost, PostEvent::DbFailed) => true,
            _ => false,
        };
        if !fits {
            return false;
        }
        match self {
            PostStage::Start => match event {
                PostEvent::Parsed(Some(raw)) => {
                    if text_is(&raw.post, "Send") || !text_is(&raw.post, "Reply") {
                        true
                    } else {
                        let sid = parse_i32(raw.subsection.as_str());
                        let tid = parse_i32(raw.reply.as_str());
                        sid.is_some() && tid.is_some()
                    }
                },
                _ => true,
            },
            _ => true,
        }
    }

    /// Takes `event` and gives the next stage and action (see `post_next`).
    pub fn advance(self, event: PostEvent) -> (next: (PostStage, PostAction))
        requires
            post_accepts(self@, event@),
        ensures
            (next.0@, next.1@) == post_next(self@, event@),
    {
        match (self, event) {
            (PostStage::Start, PostEvent::Parsed(None)) => (
                PostStage::Done,
                PostAction::Respond(PostReply::BadRequest),
            ),
            (PostStage::Start, PostEvent::Parsed(Some(raw))) => {
                if text_is(&raw.post, "Send") {
                    (PostStage::AwaitThread(raw), PostAction::CreateThread(NewThread { first_floor: -1 }))
                } else if text_is(&raw.post, "Reply") {
                    let sid = parse_i32(raw.subsection.as_str()).unwrap();
                    let tid = parse_i32(raw.reply.as_str()).unwrap();
                    (PostStage::AwaitReplyPost, PostAction::CreatePost(draft_for(&raw, sid, tid)))
                } else {
                    (PostStage::Done, PostAction::Respond(PostReply::SeeOther))
                }
            },
            (PostStage::AwaitThread(raw), PostEvent::ThreadCreated(t)) => {
                match parse_i32(raw.subsection.as_str()) {
                    Some(sid) => (
                        PostStage::AwaitFirstPost(t.tid),
                        PostAction::CreatePost(draft_for(&raw, sid, t.tid)),
                    ),
                    None => (PostStage::Done, PostAction::Respond(PostReply::ServerError)),
                }
            },
            (PostStage::AwaitFirstPost(tid), PostEvent::PostCreated(pid)) => (
                PostStage::AwaitFirstFloor,
                PostAction::SetFirstFloor { thread_id: tid, first_floor: pid },
            ),
            (PostStage::AwaitFirstFloor, PostEvent::FirstFloorSet) => (
                PostStage::Done,
                PostAction::Respond(PostReply::SeeOther),
            ),
            (PostStage::AwaitReplyPost, PostEvent::PostCreated(_)) => (
                PostStage::Done,
                PostAction::Respond(PostReply::SeeOther),
            ),
            (_, _) => (PostStage::Done, PostAction::Respond(PostReply::ServerError)),
        }
    }
}

/// A new thread is opened in four steps: the thread is created with no opening
/// post (`-1`); the form's post is written into that thread; the thread's opening
/// post is set to the post just written; the browser goes to the front page.
pub proof fn law_new_thread_steps(raw: RawPostView, thread: Thread, pid: i32)
    requires
        raw.post == "Send"@,
        parse_i32_spec(raw.subsection) is Some,
    ensures
        ({
            let e1 = PostEventView::Parsed(Some(raw));
            let (s1, a1) = post_next(PostStageView::Start, e1);
            let e2 = PostEventView::ThreadCreated(thread);
            let (s2, a2) = post_next(s1, e2);
            let e3 = PostEventView::PostCreated(pid);
            let (s3, a3) = post_next(s2, e3);
            let e4 = PostEventView::FirstFloorSet;
            let (s4, a4) = post_next(s3, e4);
            &&& post_accepts(PostStageView::Start, e1)
            &&& a1 == PostActionView::CreateThread(NewThread { first_floor: -1i32 })
            &&& post_accepts(s1, e2)
            &&& a2 matches PostActionView::CreatePost(d) && {
                &&& d.auth == "Nameless"@
                &&& d.comment == raw.comment
                &&& raw.subject matches Some(s) ==> d.subject == s
                &&& raw.subject is None ==> d.subject == Seq::<char>::empty()
                &&& d.sid == parse_i32_spec(raw.subsection)->0
                &&& d.tid == thread.tid
            }
            &&& post_accepts(s2, e3)
            &&& a3 == PostActionView::SetFirstFloor { thread_id: thread.tid, first_floor: pid }
            &&& post_accepts(s3, e4)
            &&& a4 == PostActionView::Respond(PostReply::SeeOther)
            &&& s4 is Done
        }),
{
}

/// When a new thread's section is not a number, the thread is created, its
/// opening post is never written (it stays at `-1`), and the answer is 500.
pub proof fn law_new_thread_bad_section(raw: RawPostView, thread: Thread)
    requires
        raw.post == "Send"@,
        parse_i32_spec(raw.subsection) is None,
    ensures
        ({
            let e1 = PostEventView::Parsed(Some(raw));
            let (s1, a1) = post_next(PostStageView::Start, e1);
            let e2 = PostEventView::ThreadCreated(thread);
            let (s2, a2) = post_next(s1, e2);
            &&& post_accepts(PostStageView::Start, e1)
            &&& a1 == PostActionView::CreateThread(NewThread { first_floor: -1i32 })
            &&& post_accepts(s1, e2)
            &&& a2 == PostActionView::Respond(PostReply::ServerError)
            &&& s2 is Done
        }),
{
}

/// A new thread's opening post that fails to be written is answered 500; the
/// thread stays without its opening post.
pub proof fn law_new_thread_failed_post(raw: RawPostView, thread: Thread)
    requires
        raw.post == "Send"@,
        parse_i32_spec(raw.subsection) is Some,
    ensures
        ({
            let (s1, _) = post_next(PostStageView::Start, PostEventView::Parsed(Some(raw)));
            let (s2, _) = post_next(s1, PostEventView::ThreadCreated(thread));
            let (s3, a3) = post_next(s2, PostEventView::DbFailed);
            &&& post_accepts(s2, PostEventView::DbFailed)
            &&& a3 == PostActionView::Respond(PostReply::ServerError)
            &&& s3 is Done
        }),
{
}

/// A reply is one write: the form's post goes into the thread that the form
/// names, in the section it names; then the browser goes to the front page.
pub proof fn law_reply_steps(raw: RawPostView, pid: i32)
    requires
        raw.post == "Reply"@,
        parse_i32_spec(raw.subsection) is Some,
        parse_i32_spec(raw.reply) is Some,
    ensures
        ({
            let e1 = PostEventView::Parsed(Some(raw));
            let (s1, a1) = post_next(PostStageView::Start, e1);
            let e2 = PostEventView::PostCreated(pid);
            let (s2, a2) = post_next(s1, e2);
            &&& post_accepts(PostStageView::Start, e1)
            &&& a1 matches PostActionView::CreatePost(d) && {
                &&& d.auth == "Nameless"@
                &&& d.comment == raw.comment
                &&& raw.subject matches Some(s) ==> d.subject == s
                &&& raw.subject is None ==> d.subject == Seq::<char>::empty()
                &&& d.sid == parse_i32_spec(raw.subsection)->0
                &&& d.tid == parse_i32_spec(raw.reply)->0
            }
            &&& post_accepts(s1, e2)
            &&& a2 == PostActionView::Respond(PostReply::SeeOther)
            &&& s2 is Done
        }),
{
    assert(new_thread_label() != reply_label()) by {
        reveal_strlit("Send");
        reveal_strlit("Reply");
        assert(new_thread_label().len() != reply_label().len());
    }
}

/// A form that cannot be read is answered 400 at once, and nothing is written.
pub proof fn law_unreadable_form()
    ensures
        post_accepts(PostStageView::Start, PostEventView::Parsed(None)),
        post_next(PostStageView::Start, PostEventView::Parsed(None)) == (
            PostStageView::Done,
            PostActionView::Respond(PostReply::BadRequest),
        ),
{
}

/// A form whose button is neither `Send` nor `Reply` writes nothing and sends
/// the browser to the front page.
pub proof fn law_other_button(raw: RawPostView)
    requires
        raw.post != "Send"@,
        raw.post != "Reply"@,
    ensures
        post_accepts(PostStageView::Start, PostEventView::Parsed(Some(raw))),
        post_next(PostStageView::Start, PostEventView::Parsed(Some(raw))) == (
            PostStageView::Done,
            PostActionView::Respond(PostReply::SeeOther),
        ),
{
}

/// Whatever write is awaited, its failure is answered 500 and ends the handling.
pub proof fn law_failed_write(stage: PostStageView)
    requires
        !(stage is Start),
        !(stage is Done),
    ensures
        post_accepts(stage, PostEventView::DbFailed),
        post_next(stage, PostEventView::DbFailed) == (
            PostStageView::Done,
            PostActionView::Respond(PostReply::ServerError),
        ),
{
}

/// Once the reply is decided the handler takes nothing more.
pub proof fn law_done_is_final(event: PostEventView)
    ensures
        !post_accepts(PostStageView::Done, event),
{
}

} // verus!
