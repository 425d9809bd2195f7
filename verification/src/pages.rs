//! What the board shows: stored posts become display records, and the front
//! page gathers the newest threads with their posts. Gathering the front page
//! alternates database reads with decisions; the decisions are the state
//! machine `IndexPage`.
use vstd::prelude::*;
use crate::entities::Post;

verus! {

/// A post as shown on a page: the stored post with its text columns filled in.
#[derive(Debug)]
pub struct PostView {
    pub pid: i32,
    pub auth: String,
    pub pdate: chrono::NaiveDateTime,
    pub subject: String,
    pub comment: String,
    pub sid: i32,
    pub tid: i32,
}

/// A thread as shown on the front page: its id and its posts.
#[derive(Debug)]
pub struct ThreadView {
    pub tid: i32,
    pub posts: Vec<PostView>,
}

/// Every text column of `p` is filled in, so `p` can be shown.
pub open spec fn post_complete(p: Post) -> bool {
    &&& p.auth is Some
    &&& p.subject is Some
    &&& p.comment is Some
}

/// Every post in `ps` can be shown.
pub open spec fn posts_complete(ps: Seq<Post>) -> bool {
    forall|i: int| 0 <= i < ps.len() ==> post_complete(#[trigger] ps[i])
}

/// `v` shows the post `p`: same ids and date, and the texts of its columns.
pub open spec fn shows(v: PostView, p: Post) -> bool {
    &&& v.pid == p.pid
    &&& v.auth@ == p.auth->0@
    &&& v.pdate == p.pdate
    &&& v.subject@ == p.subject->0@
    &&& v.comment@ == p.comment->0@
    &&& v.sid == p.sid
    &&& v.tid == p.tid
}

/// `vs` shows the posts `ps`, one for one and in order.
pub open spec fn shows_all(vs: Seq<PostView>, ps: Seq<Post>) -> bool {
    &&& vs.len() == ps.len()
    &&& forall|i: int| 0 <= i < vs.len() ==> shows(#[trigger] vs[i], ps[i])
}

/// The posts of a lookup that may have found nothing (`None` shows as no posts).
pub open spec fn found_posts(found: Option<Vec<Post>>) -> Seq<Post> {
    match found {
        Some(ps) => ps@,
        None => Seq::empty(),
    }
}

impl PostView {
    /// The display record of a post whose text columns are all filled in.
    pub fn from_post(p: &Post) -> (v: PostView)
        requires
            post_complete(*p),
        ensures
            shows(v, *p),
    {
        PostView {
            pid: p.pid,
            auth: p.auth.as_ref().unwrap().clone(),
            pdate: p.pdate,
            subject: p.subject.as_ref().unwrap().clone(),
            comment: p.comment.as_ref().unwrap().clone(),
            sid: p.sid,
            tid: p.tid,
        }
    }
}

/// Whether every post of the lookup `found` can be shown.
pub fn found_posts_complete(found: &Option<Vec<Post>>) -> (b: bool)
    ensures
        b == posts_complete(found_posts(*found)),
{
    match found {
        None => true,
        Some(posts) => {
            let n = posts.len();
            let mut i: usize = 0;
            while i < n
                invariant
                    0 <= i <= n,
                    n == posts@.len(),
                    found_posts(*found) == posts@,
                    forall|j: int| 0 <= j < i ==> post_complete(#[trigger] posts@[j]),
                decreases n - i,
            {
                let p = &posts[i];
                if p.auth.is_none() || p.subject.is_none() || p.comment.is_none() {
                    assert(!post_complete(posts@[i as int]));
                    return false;
                }
                i = i + 1;
            }
            true
        },
    }
}

/// The display records of the posts of a lookup, in order; no posts when it
/// found nothing.
pub fn post_views(found: &Option<Vec<Post>>) -> (views: Vec<PostView>)
    requires
        posts_complete(found_posts(*found)),
    ensures
        shows_all(views@, found_posts(*found)),
{
    let mut views: Vec<PostView> = Vec::new();
    match found {
        None => {},
        Some(posts) => {
            let n = posts.len();
            let mut i: usize = 0;
            while i < n
                invariant
                    0 <= i <= n,
                    n == posts@.len(),
                    posts_complete(posts@),
                    found_posts(*found) == posts@,
                    views@.len() == i,
                    forall|j: int| 0 <= j < i ==> shows(#[trigger] views@[j], posts@[j]),
                decreases n - i,
            {
                let v = PostView::from_post(&posts[i]);
                views.push(v);
                i = i + 1;
            }
        },
    }
    views
}

/// How many threads the front page lists.
pub open spec fn front_page_threads() -> i64 {
    20
}

/// Where gathering the front page stands.
#[derive(Debug, PartialEq, Eq, Structural, Copy, Clone)]
pub enum IndexStage {
    /// Waiting for the ids of the threads to list.
    AwaitIds,
    /// Waiting for the posts of the next listed thread.
    AwaitPosts,
    /// The page is complete, or a read failed.
    Done,
}

/// What the gatherer learns: the thread ids to list (newest first), the posts
/// of the thread it asked for, or that a read failed.
#[derive(Debug)]
pub enum IndexEvent {
    ThreadIds(Vec<i32>),
    Posts(Option<Vec<Post>>),
    DbFailed,
}

/// What the gatherer does next.
#[derive(Debug, PartialEq, Eq, Structural, Copy, Clone)]
pub enum IndexAction {
    /// Read the ids of the `limit` newest threads, skipping `offset` of them.
    LoadThreadIds { limit: i64, offset: i64 },
    /// Read the posts of thread `tid`.
    LoadPosts(i32),
    /// Show the page with the gathered threads.
    Render,
    /// Answer 500.
    ServerError,
}

/// Every gathered view is that of the thread at the same place in `tids`.
pub open spec fn views_follow_ids(tids: Seq<i32>, views: Seq<ThreadView>) -> bool {
    &&& views.len() <= tids.len()
    &&& forall|i: int| 0 <= i < views.len() ==> (#[trigger] views[i]).tid == tids[i]
}

/// The gathering of the front page.
pub struct IndexPage {
    tids: Vec<i32>,
    views: Vec<ThreadView>,
    stage: IndexStage,
}

impl IndexPage {
    #[verifier::type_invariant]
    spec fn well_formed(self) -> bool {
        &&& views_follow_ids(self.tids@, self.views@)
        &&& self.stage == IndexStage::AwaitPosts ==> self.views@.len() < self.tids@.len()
        &&& self.stage == IndexStage::AwaitIds ==> self.views@.len() == 0
    }

    /// The ids of the threads to list (empty until they are read).
    pub closed spec fn thread_ids(self) -> Seq<i32> {
        self.tids@
    }

    /// The thread views gathered so far.
    pub closed spec fn shown(self) -> Seq<ThreadView> {
        self.views@
    }

    /// Where the gathering stands.
    pub closed spec fn stage(self) -> IndexStage {
        self.stage
    }

    /// Starts gathering: first read the ids of the 20 newest threads.
    pub fn start() -> (r: (IndexPage, IndexAction))
        ensures
            r.0.stage() == IndexStage::AwaitIds,
            r.0.thread_ids() == Seq::<i32>::empty(),
            r.0.shown() == Seq::<ThreadView>::empty(),
            r.1 == (IndexAction::LoadThreadIds { limit: front_page_threads(), offset: 0 }),
            r.1 == (IndexAction::LoadThreadIds { limit: 20, offset: 0 }),
    {
        let page = IndexPage { tids: Vec::new(), views: Vec::new(), stage: IndexStage::AwaitIds };
        (page, IndexAction::LoadThreadIds { limit: 20, offset: 0 })
    }

    /// Where the gathering stands.
    pub fn stage_now(&self) -> (s: IndexStage)
        ensures
            s == self.stage(),
    {
        self.stage
    }

    /// `event` can come now: ids while waiting for ids; posts that can all be
    /// shown while waiting for posts; a failed read while waiting for either.
    pub open spec fn spec_accepts(self, event: IndexEvent) -> bool {
        match event {
            IndexEvent::ThreadIds(_) => self.stage() == IndexStage::AwaitIds,
            IndexEvent::Posts(found) => self.stage() == IndexStage::AwaitPosts && posts_complete(
                found_posts(found),
            ),
            IndexEvent::DbFailed => self.stage() != IndexStage::Done,
        }
    }

    /// Whether `event` can come now (see `spec_accepts`). Posts that cannot all
    /// be shown stop the page.
    pub fn accepts(&self, event: &IndexEvent) -> (b: bool)
        ensures
            b == self.spec_accepts(*event),
    {
        match event {
            IndexEvent::ThreadIds(_) => self.stage == IndexStage::AwaitIds,
            IndexEvent::Posts(found) => self.stage == IndexStage::AwaitPosts
                && found_posts_complete(found),
            IndexEvent::DbFailed => self.stage != IndexStage::Done,
        }
    }

    /// Takes `event` and gives the next action:
    /// - given the ids, asks for the posts of the first listed thread, or shows
    ///   the page when there are none;
    /// - given the posts of the next listed thread, adds its view (see
    ///   `post_views`) and asks for the thread after it, or shows the page when
    ///   every listed thread has its view;
    /// - a failed read is answered 500.
    pub fn advance(&mut self, event: IndexEvent) -> (action: IndexAction)
        requires
            old(self).spec_accepts(event),
        ensures
            views_follow_ids(final(self).thread_ids(), final(self).shown()),
            action == IndexAction::Render ==> final(self).shown().len()
                == final(self).thread_ids().len(),
            action is LoadPosts ==> final(self).stage() == IndexStage::AwaitPosts && action->0
                == final(self).thread_ids()[final(self).shown().len() as int],
            event is ThreadIds ==> {
                &&& final(self).thread_ids() == event->ThreadIds_0@
                &&& final(self).shown() == old(self).shown()
                &&& event->ThreadIds_0@.len() == 0 ==> action == IndexAction::Render
                    && final(self).stage() == IndexStage::Done
                &&& event->ThreadIds_0@.len() > 0 ==> action == IndexAction::LoadPosts(
                    event->ThreadIds_0@[0],
                )
            },
            event is Posts ==> {
                let k = old(self).shown().len();
                &&& final(self).thread_ids() == old(self).thread_ids()
                &&& final(self).shown().len() == k + 1
                &&& final(self).shown().drop_last() == old(self).shown()
                &&& final(self).shown().last().tid == old(self).thread_ids()[k as int]
                &&& shows_all(final(self).shown().last().posts@, found_posts(event->Posts_0))
                &&& k + 1 < old(self).thread_ids().len() ==> action == IndexAction::LoadPosts(
                    old(self).thread_ids()[k + 1int],
                )
                &&& k + 1 == old(self).thread_ids().len() ==> action == IndexAction::Render
                    && final(self).stage() == IndexStage::Done
            },
            event is DbFailed ==> {
                &&& action == IndexAction::ServerError
                &&& final(self).stage() == IndexStage::Done
                &&& final(self).thread_ids() == old(self).thread_ids()
                &&& final(self).shown() == old(self).shown()
            },
    {
        proof {
            use_type_invariant(&*self);
        }
        match event {
            IndexEvent::ThreadIds(ids) => {
                let mut views: Vec<ThreadView> = Vec::new();
                std::mem::swap(&mut views, &mut self.views);
                assert(views@.len() == 0);
                if ids.len() == 0 {
                    *self = IndexPage { tids: ids, views, stage: IndexStage::Done };
                    IndexAction::Render
                } else {
                    let first = ids[0];
                    *self = IndexPage { tids: ids, views, stage: IndexStage::AwaitPosts };
                    IndexAction::LoadPosts(first)
                }
            },
            IndexEvent::Posts(found) => {
                let k = self.views.len();
                let tid = self.tids[k];
                let posts = post_views(&found);
                let mut views: Vec<ThreadView> = Vec::new();
                std::mem::swap(&mut views, &mut self.views);
                let ghost before = views@;
                views.push(ThreadView { tid, posts });
                assert(views@.drop_last() =~= before);
                let n = self.tids.len();
                if k + 1 < n {
                    let next = self.tids[k + 1];
                    self.views = views;
                    IndexAction::LoadPosts(next)
                } else {
                    self.stage = IndexStage::Done;
                    let mut tids: Vec<i32> = Vec::new();
                    std::mem::swap(&mut tids, &mut self.tids);
                    *self = IndexPage { tids, views, stage: IndexStage::Done };
                    IndexAction::Render
                }
            },
            IndexEvent::DbFailed => {
                self.stage = IndexStage::Done;
                IndexAction::ServerError
            },
        }
    }

    /// The gathered thread views, in the order of the listed ids.
    pub fn into_views(self) -> (views: Vec<ThreadView>)
        ensures
            views@ == self.shown(),
    {
        self.views
    }
}

/// A lookup can be shown exactly when every one of its posts has its author,
/// subject and comment, whatever the number of posts; a lookup that found
/// nothing shows no posts.
pub proof fn law_showable_lookups(ps: Seq<Post>, v: Vec<Post>)
    ensures
        posts_complete(ps) <==> forall|i: int|
            0 <= i < ps.len() ==> (#[trigger] ps[i]).auth is Some && ps[i].subject is Some
                && ps[i].comment is Some,
        found_posts(None) == Seq::<Post>::empty(),
        found_posts(Some(v)) == v@,
{
}

/// While the ids are awaited, any list of ids is taken, whatever its length.
pub proof fn law_ids_always_taken(page: IndexPage, ids: Vec<i32>)
    requires
        page.stage() == IndexStage::AwaitIds,
    ensures
        page.spec_accepts(IndexEvent::ThreadIds(ids)),
{
}

/// While posts are awaited, a lookup is taken exactly when every post it found
/// has its author, subject and comment, whatever the number of posts; a lookup
/// that found nothing is taken.
pub proof fn law_posts_taken(page: IndexPage, found: Option<Vec<Post>>)
    requires
        page.stage() == IndexStage::AwaitPosts,
    ensures
        found is None ==> page.spec_accepts(IndexEvent::Posts(found)),
        found matches Some(ps) ==> (page.spec_accepts(IndexEvent::Posts(found)) <==> forall|i: int|
            0 <= i < ps@.len() ==> (#[trigger] ps@[i]).auth is Some && ps@[i].subject is Some
                && ps@[i].comment is Some),
{
}

/// A failed read is taken until the page is done.
pub proof fn law_failed_read_taken(page: IndexPage)
    requires
        page.stage() != IndexStage::Done,
    ensures
        page.spec_accepts(IndexEvent::DbFailed),
{
}

/// The display records of a lookup are its posts one for one and in order,
/// each with the same ids and date and the texts of its author, subject and
/// comment columns.
pub proof fn law_views_copy_posts(vs: Seq<PostView>, ps: Seq<Post>)
    ensures
        shows_all(vs, ps) <==> (vs.len() == ps.len() && forall|i: int|
            0 <= i < vs.len() ==> {
                &&& (#[trigger] vs[i]).pid == ps[i].pid
                &&& vs[i].auth@ == ps[i].auth->0@
                &&& vs[i].pdate == ps[i].pdate
                &&& vs[i].subject@ == ps[i].subject->0@
                &&& vs[i].comment@ == ps[i].comment->0@
                &&& vs[i].sid == ps[i].sid
                &&& vs[i].tid == ps[i].tid
            }),
{
}

} // verus!
