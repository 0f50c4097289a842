use std::collections::VecDeque;
use vstd::prelude::*;
use crate::error::PlayError;

verus! {

/// One queued unit of playback: the resolved locator of its audio source.
#[derive(Debug)]
pub struct Song {
    url: String,
}

impl View for Song {
    type V = Seq<char>;

    closed spec fn view(&self) -> Seq<char> {
        self.url@
    }
}

impl Song {
    pub fn new(url: String) -> (r: Song)
        ensures
            r@ == url@,
    {
        Song { url }
    }

    pub fn url(&self) -> (r: &String)
        ensures
            r@ == self@,
    {
        &self.url
    }
}

/// The songs' locators, in queue order.
pub open spec fn locators(songs: Seq<Song>) -> Seq<Seq<char>> {
    songs.map_values(|s: Song| s@)
}

/// What one room's state is, as the contracts see it. `starting` is set
/// while a song handed out by an advance has not yet been recorded as
/// playing, nor given up.
pub struct GuildView<H> {
    pub channel_id: u64,
    pub handle: Option<H>,
    pub now_playing: Option<Seq<char>>,
    pub starting: bool,
    pub queue: Seq<Seq<char>>,
}

impl<H> GuildView<H> {
    /// A handle is held exactly while a song is playing, and no start is
    /// pending while one plays.
    pub open spec fn wf(self) -> bool {
        &&& (self.handle is Some <==> self.now_playing is Some)
        &&& !(self.starting && self.now_playing is Some)
    }

    /// Nothing plays and no start is pending.
    pub open spec fn is_idle(self) -> bool {
        self.now_playing is None && !self.starting
    }

    pub open spec fn is_empty(self) -> bool {
        self.is_idle() && self.queue.len() == 0
    }
}

/// A fresh room bound to a voice channel: nothing playing, nothing queued.
pub open spec fn fresh<H>(channel_id: u64) -> GuildView<H> {
    GuildView { channel_id, handle: None, now_playing: None, starting: false, queue: Seq::empty() }
}

/// The room after its queue has grown by `songs`, in order.
pub open spec fn with_queued<H>(g: GuildView<H>, songs: Seq<Seq<char>>) -> GuildView<H> {
    GuildView { queue: g.queue + songs, ..g }
}

/// The room bound to another voice channel.
pub open spec fn relocated<H>(g: GuildView<H>, channel_id: u64) -> GuildView<H> {
    GuildView { channel_id, ..g }
}

/// The room with `song` playing under `handle`; the pending start is done.
pub open spec fn playing<H>(g: GuildView<H>, song: Seq<char>, handle: H) -> GuildView<H> {
    GuildView { now_playing: Some(song), handle: Some(handle), starting: false, ..g }
}

/// The room after a pending start was given up: the song it took off the
/// queue is dropped and the room is idle again.
pub open spec fn abandoned<H>(g: GuildView<H>) -> GuildView<H> {
    GuildView { starting: false, ..g }
}

/// The room with nothing playing.
pub open spec fn cleared<H>(g: GuildView<H>) -> GuildView<H> {
    GuildView { now_playing: None, handle: None, ..g }
}

/// What an advance decides, as the contracts see it.
pub enum Step {
    Busy,
    Start(Seq<char>, u64),
    Teardown(u64),
    Gone,
}

/// The decision of an advance: wait while a song plays or a start is
/// pending, else start the head of the queue on the room's channel, else
/// leave the channel.
pub open spec fn next_step<H>(g: GuildView<H>) -> Step {
    if !g.is_idle() {
        Step::Busy
    } else if g.queue.len() > 0 {
        Step::Start(g.queue[0], g.channel_id)
    } else {
        Step::Teardown(g.channel_id)
    }
}

/// The room after an advance: a start takes the head off the queue and
/// leaves the start pending; otherwise the room is left as it was.
pub open spec fn after_advance<H>(g: GuildView<H>) -> GuildView<H> {
    if g.is_idle() && g.queue.len() > 0 {
        GuildView { queue: g.queue.drop_first(), starting: true, ..g }
    } else {
        g
    }
}

/// What the caller of an advance has to do next.
#[derive(Debug)]
pub enum Advance {
    /// A song is playing or about to; its end drives the next advance.
    Busy,
    /// Join the channel and stream the song, then record it as playing, or
    /// record that it could not start.
    Start(Song, u64),
    /// Nothing is left to play: leave the channel; the room is gone.
    Teardown(u64),
    /// The room is not tracked (it was torn down already): nothing to do.
    Gone,
}

impl View for Advance {
    type V = Step;

    open spec fn view(&self) -> Step {
        match self {
            Advance::Busy => Step::Busy,
            Advance::Start(s, c) => Step::Start(s@, *c),
            Advance::Teardown(c) => Step::Teardown(*c),
            Advance::Gone => Step::Gone,
        }
    }
}

/// One room's playback state: the channel it streams into, the handle of the
/// song that plays (if any), that song, whether a start is pending, and the
/// songs waiting.
pub struct Guild<H> {
    channel_id: u64,
    handle: Option<H>,
    now_playing: Option<Song>,
    starting: bool,
    queue: VecDeque<Song>,
}

impl<H> View for Guild<H> {
    type V = GuildView<H>;

    closed spec fn view(&self) -> GuildView<H> {
        GuildView {
            channel_id: self.channel_id,
            handle: self.handle,
            now_playing: match self.now_playing {
                Some(s) => Some(s@),
                None => None,
            },
            starting: self.starting,
            queue: locators(self.queue@),
        }
    }
}

impl<H> Guild<H> {
    pub fn new(channel_id: u64) -> (r: Guild<H>)
        ensures
            r@ == fresh::<H>(channel_id),
    {
        let r = Guild {
            channel_id,
            handle: None,
            now_playing: None,
            starting: false,
            queue: VecDeque::new(),
        };
        assert(r@.queue =~= Seq::empty());
        r
    }

    pub fn channel_id(&self) -> (r: u64)
        ensures
            r == self@.channel_id,
    {
        self.channel_id
    }

    pub fn handle(&self) -> (r: Option<&H>)
        ensures
            r == match self@.handle {
                Some(h) => Some(&h),
                None => None::<&H>,
            },
    {
        self.handle.as_ref()
    }

    /// The handle of the song that plays, for the caller to stop it; its end
    /// then drives the next advance. Where nothing plays this is an error.
    pub fn skip(&self) -> (r: Result<&H, PlayError>)
        ensures
            self@.handle is Some ==> (r matches Ok(h) && *h == self@.handle->0),
            self@.handle is None ==> (r matches Err(e) && e is BotNotPlaying),
    {
        match self.handle.as_ref() {
            Some(h) => Ok(h),
            None => Err(PlayError::BotNotPlaying),
        }
    }

    pub fn queue_len(&self) -> (r: usize)
        ensures
            r == self@.queue.len(),
    {
        self.queue.len()
    }

    pub fn is_starting(&self) -> (r: bool)
        ensures
            r == self@.starting,
    {
        self.starting
    }

    pub fn is_idle(&self) -> (r: bool)
        ensures
            r == self@.is_idle(),
    {
        self.now_playing.is_none() && !self.starting
    }

    pub fn is_empty(&self) -> (r: bool)
        ensures
            r == self@.is_empty(),
    {
        self.is_idle() && self.queue.len() == 0
    }

    /// Binds the room to the channel of whoever issued the latest request.
    pub fn relocate(&mut self, channel_id: u64)
        ensures
            final(self)@ == relocated(old(self)@, channel_id),
    {
        self.channel_id = channel_id;
    }

    pub fn enqueue(&mut self, song: Song)
        requires
            old(self)@.queue.len() < usize::MAX,
        ensures
            final(self)@ == with_queued(old(self)@, seq![song@]),
    {
        self.queue.push_back(song);
        assert(self@.queue =~= old(self)@.queue + seq![song@]);
    }

    /// Appends `songs` in order and returns the 1-based queue position of the
    /// first of them.
    pub fn enqueue_all(&mut self, mut songs: VecDeque<Song>) -> (pos: usize)
        requires
            old(self)@.queue.len() + songs@.len() < usize::MAX,
        ensures
            final(self)@ == with_queued(old(self)@, locators(songs@)),
            pos == old(self)@.queue.len() + 1,
    {
        let pos = self.queue.len() + 1;
        let ghost added = songs@;
        self.queue.append(&mut songs);
        assert(self@.queue =~= old(self)@.queue + locators(added));
        pos
    }

    /// Takes the head of the queue off, if there is one.
    pub fn pop_next(&mut self) -> (r: Option<Song>)
        ensures
            old(self)@.queue.len() == 0 ==> r is None && final(self)@ == old(self)@,
            old(self)@.queue.len() > 0 ==> (r matches Some(s) && s@ == old(self)@.queue[0]
                && final(self)@ == (GuildView { queue: old(self)@.queue.drop_first(), ..old(self)@ })),
    {
        let r = self.queue.pop_front();
        proof {
            if old(self)@.queue.len() > 0 {
                assert(self@.queue =~= old(self)@.queue.drop_first());
            }
        }
        r
    }

    /// Records `song`, handed out by the pending start and now streaming
    /// under `handle`, as playing.
    pub fn start_playing(&mut self, song: Song, handle: H)
        requires
            old(self)@.starting,
            old(self)@.now_playing is None,
        ensures
            final(self)@ == playing(old(self)@, song@, handle),
    {
        self.now_playing = Some(song);
        self.handle = Some(handle);
        self.starting = false;
    }

    /// Gives up the pending start: the song could not be streamed and is
    /// dropped, and the room is idle again.
    pub fn start_failed(&mut self)
        ensures
            final(self)@ == abandoned(old(self)@),
    {
        self.starting = false;
    }

    /// Records that the song that played has ended.
    pub fn clear_playing(&mut self)
        ensures
            final(self)@ == cleared(old(self)@),
    {
        self.now_playing = None;
        self.handle = None;
    }

    /// Decides the next move of the room: see `next_step` and `after_advance`.
    pub fn advance(&mut self) -> (r: Advance)
        ensures
            r@ == next_step(old(self)@),
            final(self)@ == after_advance(old(self)@),
    {
        if !self.is_idle() {
            Advance::Busy
        } else {
            match self.pop_next() {
                Some(s) => {
                    self.starting = true;
                    Advance::Start(s, self.channel_id)
                },
                None => Advance::Teardown(self.channel_id),
            }
        }
    }
}

/// At most one song is under way in a room. An advance starts a song only in
/// an idle room and leaves the start pending, so every further advance is
/// `Busy` until the start is recorded or given up; while a song plays an
/// advance changes nothing, so no other song starts before it has ended.
pub proof fn lemma_one_song_at_a_time<H>(g: GuildView<H>, song: Seq<char>, handle: H)
    ensures
        next_step(g) is Start ==> g.is_idle() && after_advance(g).starting
            && next_step(after_advance(g)) is Busy,
        !g.is_idle() ==> next_step(g) is Busy && after_advance(g) == g,
        g.starting ==> next_step(g) is Busy,
        next_step(playing(g, song, handle)) is Busy,
        after_advance(playing(g, song, handle)) == playing(g, song, handle),
        g.wf() && next_step(g) is Start ==> after_advance(g).wf() && playing(
            after_advance(g),
            song,
            handle,
        ).wf(),
{
}

/// Songs leave the queue in the order they entered it: songs queued by one
/// call, then by another, sit behind those already waiting in that order,
/// and an advance of an idle room starts the head of the queue.
pub proof fn lemma_queue_order<H>(g: GuildView<H>, first: Seq<Seq<char>>, second: Seq<Seq<char>>)
    ensures
        with_queued(with_queued(g, first), second).queue == g.queue + first + second,
        g.is_idle() && g.queue.len() == 0 && first.len() > 0 ==> next_step(
            with_queued(with_queued(g, first), second),
        ) == Step::Start(first[0], g.channel_id) && after_advance(
            with_queued(with_queued(g, first), second),
        ).queue == first.drop_first() + second,
{
    assert(with_queued(with_queued(g, first), second).queue =~= g.queue + first + second);
    if g.is_idle() && g.queue.len() == 0 && first.len() > 0 {
        assert((g.queue + first + second).drop_first() =~= first.drop_first() + second);
    }
}

} // verus!
