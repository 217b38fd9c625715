//! Round-robin scheduling: users take turns to feed the queue that is
//! played from.

use crate::types::{GlobalQueue, GlobalQueueView, Song, UserQueue, UserQueueView};
use std::collections::VecDeque;
use vstd::prelude::*;

verus! {

/// The queue of a user who has submitted nothing yet.
pub open spec fn fresh_user(user_id: Seq<char>) -> UserQueueView {
    UserQueueView { user_id, q: Seq::<Song>::empty(), shuffle: false }
}

/// The first user hands over their first song and goes to the back of the
/// line.
pub open spec fn give(g: GlobalQueueView) -> GlobalQueueView
    recommends
        g.users.len() > 0,
        g.users[0].q.len() > 0,
{
    let user = g.users[0];
    GlobalQueueView {
        q: g.q.push(user.q[0]),
        users: g.users.drop_first().push(UserQueueView { q: user.q.drop_first(), ..user }),
    }
}

/// The first user leaves the line.
pub open spec fn dismiss(g: GlobalQueueView) -> GlobalQueueView
    recommends
        g.users.len() > 0,
{
    GlobalQueueView { users: g.users.drop_first(), ..g }
}

/// One song is drawn: users without songs leave the line until one has a
/// song to give. Where nobody has, the line ends up empty.
pub open spec fn draw(g: GlobalQueueView) -> GlobalQueueView
    decreases g.users.len(),
{
    if g.users.len() == 0 {
        g
    } else if g.users[0].q.len() > 0 {
        give(g)
    } else {
        draw(dismiss(g))
    }
}

/// The queue is topped up by one song where it holds no more than `target`.
pub open spec fn refilled(g: GlobalQueueView, target: nat) -> GlobalQueueView {
    if g.q.len() <= target {
        draw(g)
    } else {
        g
    }
}

/// The song that is played next.
pub open spec fn next_song(g: GlobalQueueView, target: nat) -> Option<Song> {
    let r = refilled(g, target);
    if r.q.len() > 0 {
        Some(r.q[0])
    } else {
        None
    }
}

/// The queue after the next song was taken from it.
pub open spec fn after_next(g: GlobalQueueView, target: nat) -> GlobalQueueView {
    let r = refilled(g, target);
    if r.q.len() > 0 {
        GlobalQueueView { q: r.q.drop_first(), ..r }
    } else {
        r
    }
}

/// Users take turns until the queue holds `count` songs or nobody is left
/// in the line.
pub open spec fn flushed(g: GlobalQueueView, count: nat) -> GlobalQueueView
    decreases count - g.q.len(), g.users.len(),
{
    if g.q.len() < count && g.users.len() > 0 {
        if g.users[0].q.len() > 0 {
            flushed(give(g), count)
        } else {
            flushed(dismiss(g), count)
        }
    } else {
        g
    }
}

/// How many songs a preview of `count` shows of a queue of `len`.
pub open spec fn preview_len(len: nat, count: nat) -> nat
    recommends
        len >= count || len > 0,
{
    if len >= count {
        count
    } else {
        (len - 1) as nat
    }
}

/// The songs that wait in the users' own queues.
pub open spec fn waiting(users: Seq<UserQueueView>) -> nat
    decreases users.len(),
{
    if users.len() == 0 {
        0
    } else {
        waiting(users.drop_last()) + users.last().q.len()
    }
}

/// All the songs that the queue and its users hold.
pub open spec fn total(g: GlobalQueueView) -> nat {
    g.q.len() + waiting(g.users)
}

/// The songs that wait are those of the first user and those of the rest.
pub proof fn lemma_waiting_from_front(users: Seq<UserQueueView>)
    requires
        users.len() > 0,
    ensures
        waiting(users) == users[0].q.len() + waiting(users.drop_first()),
    decreases users.len(),
{
    if users.len() == 1 {
        assert(users.drop_last() == users.drop_first());
        assert(waiting(users.drop_last()) == 0);
    } else {
        lemma_waiting_from_front(users.drop_last());
        assert(users.drop_last().drop_first() == users.drop_first().drop_last());
        assert(users.drop_first().last() == users.last());
    }
}

/// A turn moves one song from the first user into the queue: none is lost
/// and none is added.
pub proof fn lemma_give_conserves(g: GlobalQueueView)
    requires
        g.users.len() > 0,
        g.users[0].q.len() > 0,
    ensures
        total(give(g)) == total(g),
        give(g).q.len() == g.q.len() + 1,
        give(g).users.len() == g.users.len(),
{
    let user = g.users[0];
    let back = UserQueueView { q: user.q.drop_first(), ..user };
    let users = g.users.drop_first().push(back);
    lemma_waiting_from_front(g.users);
    assert(users.drop_last() == g.users.drop_first());
    assert(users.last() == back);
}

/// A user who leaves the line without songs takes none along.
pub proof fn lemma_dismiss_conserves(g: GlobalQueueView)
    requires
        g.users.len() > 0,
        g.users[0].q.len() == 0,
    ensures
        total(dismiss(g)) == total(g),
{
    lemma_waiting_from_front(g.users);
}

/// Drawing a song loses none and adds none. It lengthens the queue by one
/// song at most, and by none only where no user had a song: the line is
/// then empty.
pub proof fn lemma_draw_conserves(g: GlobalQueueView)
    ensures
        total(draw(g)) == total(g),
        draw(g).q.len() == g.q.len() + 1 || (draw(g).q == g.q && draw(g).users.len() == 0
            && waiting(g.users) == 0),
        g.q.is_prefix_of(draw(g).q),
    decreases g.users.len(),
{
    if g.users.len() > 0 {
        if g.users[0].q.len() > 0 {
            lemma_give_conserves(g);
        } else {
            lemma_dismiss_conserves(g);
            lemma_draw_conserves(dismiss(g));
        }
    }
}

/// Taking the next song removes exactly that song, where there is one, and
/// nothing where there is none.
pub proof fn lemma_next_conserves(g: GlobalQueueView, target: nat)
    ensures
        next_song(g, target) is Some ==> total(after_next(g, target)) + 1 == total(g),
        next_song(g, target) is None ==> total(after_next(g, target)) == total(g) && total(g)
            == 0,
        g.q.len() > 0 ==> next_song(g, target) == Some(g.q[0]),
{
    lemma_draw_conserves(g);
    if g.q.len() > target {
        assert(g.q.len() > 0);
    }
}

/// Flushing loses no song and adds none. The songs that were queued stay at
/// the head, in their order. Afterwards the queue holds `count` songs at
/// least, or no user is left in the line; and it holds no more than `count`
/// unless it did before.
pub proof fn lemma_flushed(g: GlobalQueueView, count: nat)
    ensures
        total(flushed(g, count)) == total(g),
        g.q.is_prefix_of(flushed(g, count).q),
        flushed(g, count).q.len() >= count || flushed(g, count).users.len() == 0,
        flushed(g, count).q.len() <= count || flushed(g, count) == g,
    decreases count - g.q.len(), g.users.len(),
{
    if g.q.len() < count && g.users.len() > 0 {
        if g.users[0].q.len() > 0 {
            lemma_give_conserves(g);
            lemma_flushed(give(g), count);
        } else {
            lemma_dismiss_conserves(g);
            lemma_flushed(dismiss(g), count);
        }
    }
}

/// A queue that holds enough songs, or has no users, is left as it is.
pub proof fn lemma_flushed_is_idempotent(g: GlobalQueueView, count: nat)
    ensures
        flushed(flushed(g, count), count) == flushed(g, count),
    decreases count - g.q.len(), g.users.len(),
{
    if g.q.len() < count && g.users.len() > 0 {
        if g.users[0].q.len() > 0 {
            lemma_flushed_is_idempotent(give(g), count);
        } else {
            lemma_flushed_is_idempotent(dismiss(g), count);
        }
    }
}

/// Whether `after` is what is left of `before` once `before` gave its first
/// `k` songs: the same user, with the other songs in the same order.
pub open spec fn is_rest_of(after: UserQueueView, before: UserQueueView, k: int) -> bool {
    &&& 0 <= k <= before.q.len()
    &&& after == (UserQueueView { q: before.q.skip(k), ..before })
}

/// Whether `after` is what is left of one of `users`.
pub open spec fn comes_from(after: UserQueueView, users: Seq<UserQueueView>) -> bool {
    exists|i: int, k: int| 0 <= i < users.len() && #[trigger] is_rest_of(after, users[i], k)
}

/// Flushing keeps each user's songs in order: whoever is still in the line
/// afterwards was in it before, and holds what was left when the songs at
/// the head of their queue were given, one after the other.
pub proof fn lemma_flushed_keeps_order(g: GlobalQueueView, count: nat)
    ensures
        forall|j: int|
            0 <= j < flushed(g, count).users.len() ==> comes_from(
                #[trigger] flushed(g, count).users[j],
                g.users,
            ),
    decreases count - g.q.len(), g.users.len(),
{
    let f = flushed(g, count);
    if g.q.len() < count && g.users.len() > 0 {
        let step = if g.users[0].q.len() > 0 {
            give(g)
        } else {
            dismiss(g)
        };
        lemma_flushed_keeps_order(step, count);
        assert(f == flushed(step, count));
        assert forall|j: int| 0 <= j < f.users.len() implies comes_from(
            #[trigger] f.users[j],
            g.users,
        ) by {
            assert(comes_from(f.users[j], step.users));
            let (i, k) = choose|i: int, k: int|
                0 <= i < step.users.len() && #[trigger] is_rest_of(f.users[j], step.users[i], k);
            if i + 1 < g.users.len() {
                assert(step.users[i] == g.users[i + 1]);
                assert(is_rest_of(f.users[j], g.users[i + 1], k));
            } else {
                assert(g.users[0].q.drop_first().skip(k) == g.users[0].q.skip(k + 1));
                assert(is_rest_of(f.users[j], g.users[0], k + 1));
            }
        }
    } else {
        assert forall|j: int| 0 <= j < f.users.len() implies comes_from(
            #[trigger] f.users[j],
            g.users,
        ) by {
            assert(g.users[j].q.skip(0) == g.users[j].q);
            assert(is_rest_of(f.users[j], g.users[j], 0));
        }
    }
}

/// Whether the turns that the users in a line have had are fair: nobody
/// has had more turns than anyone behind them, and nobody is more than one
/// turn ahead of anyone.
pub open spec fn fair(turns: Seq<nat>) -> bool {
    forall|i: int, j: int|
        0 <= i <= j < turns.len() ==> turns[i] <= #[trigger] turns[j] <= #[trigger] turns[i] + 1
}

/// The turns that the users in the line have had once the queue is flushed,
/// where `turns` are those they had before, in the order of the line. A
/// user who gives a song has had one turn more; a user who leaves the line
/// is counted no longer.
pub open spec fn turns_after_flush(g: GlobalQueueView, turns: Seq<nat>, count: nat) -> Seq<nat>
    decreases count - g.q.len(), g.users.len(),
{
    if g.q.len() < count && g.users.len() > 0 {
        if g.users[0].q.len() > 0 {
            turns_after_flush(give(g), turns.drop_first().push(turns[0] + 1), count)
        } else {
            turns_after_flush(dismiss(g), turns.drop_first(), count)
        }
    } else {
        turns
    }
}

/// Flushing is fair: where the turns were fair before, they are after. In
/// particular, from a line in which nobody has had a turn, no user gets two
/// turns ahead of another who is still in the line.
pub proof fn lemma_flush_is_fair(g: GlobalQueueView, turns: Seq<nat>, count: nat)
    requires
        turns.len() == g.users.len(),
        fair(turns),
    ensures
        turns_after_flush(g, turns, count).len() == flushed(g, count).users.len(),
        fair(turns_after_flush(g, turns, count)),
    decreases count - g.q.len(), g.users.len(),
{
    if g.q.len() < count && g.users.len() > 0 {
        if g.users[0].q.len() > 0 {
            let next = turns.drop_first().push(turns[0] + 1);
            assert forall|i: int, j: int| 0 <= i <= j < next.len() implies next[i]
                <= #[trigger] next[j] <= #[trigger] next[i] + 1 by {
                if j < next.len() - 1 {
                    assert(next[i] == turns[i + 1] && next[j] == turns[j + 1]);
                } else if i < next.len() - 1 {
                    assert(next[i] == turns[i + 1]);
                    assert(turns[0] <= turns[i + 1] <= turns[0] + 1);
                }
            }
            lemma_flush_is_fair(give(g), next, count);
        } else {
            let next = turns.drop_first();
            assert forall|i: int, j: int| 0 <= i <= j < next.len() implies next[i]
                <= #[trigger] next[j] <= #[trigger] next[i] + 1 by {
                assert(next[i] == turns[i + 1] && next[j] == turns[j + 1]);
            }
            lemma_flush_is_fair(dismiss(g), next, count);
        }
    }
}

impl UserQueue {
    /// The empty queue of the given user.
    pub fn new(user_id: String) -> (queue: Self)
        ensures
            queue@ == fresh_user(user_id@),
    {
        UserQueue { user_id, q: VecDeque::new(), shuffle: false }
    }

    /// Takes the user's next song, if there is one.
    pub fn get_next(&mut self) -> (song: Option<Song>)
        ensures
            old(self)@.q.len() > 0 ==> song == Some(old(self)@.q[0]) && final(self)@ == (
            UserQueueView { q: old(self)@.q.drop_first(), ..old(self)@ }),
            old(self)@.q.len() == 0 ==> song is None && final(self)@ == old(self)@,
    {
        self.q.pop_front()
    }

    /// Whether the user has a song waiting.
    pub fn has_songs(&self) -> (r: bool)
        ensures
            r == (self@.q.len() > 0),
    {
        self.q.len() > 0
    }
}

impl GlobalQueue {
    /// A queue without songs and without users.
    pub fn new() -> (queue: Self)
        ensures
            queue@ == (GlobalQueueView {
                q: Seq::<Song>::empty(),
                users: Seq::<UserQueueView>::empty(),
            }),
    {
        let queue = GlobalQueue { q: VecDeque::new(), users: VecDeque::new() };
        assert(queue@.users == Seq::<UserQueueView>::empty());
        queue
    }

    /// Draws one song from the line of users into the queue.
    fn draw_one(&mut self)
        ensures
            final(self)@ == draw(old(self)@),
    {
        loop
            invariant_except_break
                draw(self@) == draw(old(self)@),
            ensures
                self@ == draw(old(self)@),
            decreases self.users@.len(),
        {
            let ghost before = self@;
            match self.users.pop_front() {
                Some(user) => {
                    let mut user = user;
                    assert(self@.users == before.users.drop_first());
                    match user.get_next() {
                        Some(song) => {
                            self.users.push_back(user);
                            self.q.push_back(song);
                            assert(self@.users == give(before).users);
                            break ;
                        },
                        None => {
                            assert(self@ == dismiss(before));
                        },
                    }
                },
                None => {
                    assert(self@.users == before.users);
                    break ;
                },
            }
        }
    }

    /// Hands out the song to play next. Before that, where the queue holds
    /// no more than `target_count` songs, the next user in line who has a
    /// song adds one; users found without songs leave the line.
    pub fn next(&mut self, target_count: usize) -> (song: Option<Song>)
        ensures
            song == next_song(old(self)@, target_count as nat),
            final(self)@ == after_next(old(self)@, target_count as nat),
    {
        if self.q.len() <= target_count {
            self.draw_one();
        }
        self.q.pop_front()
    }

    /// Moves songs from the users into the queue, one user after the other,
    /// until it holds `count` songs or no user is left in line.
    pub fn flush_songs(&mut self, count: usize)
        ensures
            final(self)@ == flushed(old(self)@, count as nat),
    {
        while self.q.len() < count && self.users.len() > 0
            invariant
                flushed(self@, count as nat) == flushed(old(self)@, count as nat),
            decreases count - self.q@.len(), self.users@.len(),
        {
            let ghost before = self@;
            let mut user = self.users.pop_front().unwrap();
            assert(self@.users == before.users.drop_first());
            if let Some(song) = user.get_next() {
                self.q.push_back(song);
                self.users.push_back(user);
                assert(self@.users == give(before).users);
            } else {
                assert(self@ == dismiss(before));
            }
        }
    }

    /// Puts a new user at the end of the line.
    pub fn register_user(&mut self, user_id: String)
        ensures
            final(self)@ == (GlobalQueueView {
                users: old(self)@.users.push(fresh_user(user_id@)),
                ..old(self)@
            }),
    {
        let ghost before = self@;
        self.users.push_back(UserQueue::new(user_id));
        assert(self@.users == before.users.push(fresh_user(user_id@)));
    }

    /// Tells whether a preview of `count` songs can be taken: of an empty
    /// queue only the empty one can.
    pub fn can_preview(&self, count: usize) -> (r: bool)
        ensures
            r == (self@.q.len() >= count || self@.q.len() > 0),
    {
        self.q.len() >= count || self.q.len() > 0
    }

    /// The songs at the head of the queue: `count` of them where the queue
    /// holds as many, else all but the last.
    pub fn preview(&self, count: usize) -> (songs: Vec<&Song>)
        requires
            self@.q.len() >= count || self@.q.len() > 0,
        ensures
            songs@.len() == preview_len(self@.q.len(), count as nat),
            forall|i: int| 0 <= i < songs@.len() ==> *(#[trigger] songs@[i]) == self@.q[i],
    {
        let shown: usize = if self.q.len() >= count {
            count
        } else {
            self.q.len() - 1
        };
        let mut songs: Vec<&Song> = Vec::new();
        let mut i: usize = 0;
        while i < shown
            invariant
                i <= shown <= self.q@.len(),
                songs@.len() == i,
                forall|j: int| 0 <= j < i ==> *(#[trigger] songs@[j]) == self.q@[j],
            decreases shown - i,
        {
            songs.push(&self.q[i]);
            i = i + 1;
        }
        songs
    }
}

} // verus!
