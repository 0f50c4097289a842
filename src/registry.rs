use vstd::prelude::*;
use std::collections::{HashMap, VecDeque};
use crate::error::PlayError;
use crate::room::{abandoned, after_advance, Step, cleared, fresh, locators, next_step, playing, relocated, with_queued, Advance, Guild, GuildView, Song};

verus! {

broadcast use vstd::std_specs::hash::group_hash_axioms;

/// The room a play request lands in: the tracked one, moved to the
/// issuer's channel, or a fresh one bound to it.
pub open spec fn room_for<H>(m: Map<u64, GuildView<H>>, id: u64, channel_id: u64) -> GuildView<H> {
    if m.contains_key(id) {
        relocated(m[id], channel_id)
    } else {
        fresh(channel_id)
    }
}

/// The rooms after an advance of room `id`: a room that had nothing left
/// is removed, any other takes its state after the advance.
pub open spec fn rooms_after_advance<H>(m: Map<u64, GuildView<H>>, id: u64) -> Map<u64, GuildView<H>> {
    if next_step(m[id]) is Teardown {
        m.remove(id)
    } else {
        m.insert(id, after_advance(m[id]))
    }
}

/// The registry of rooms, keyed by guild id.
pub struct InternalHandler<H> {
    guilds: HashMap<u64, Guild<H>>,
}

impl<H> View for InternalHandler<H> {
    type V = Map<u64, GuildView<H>>;

    closed spec fn view(&self) -> Map<u64, GuildView<H>> {
        self.guilds@.map_values(|g: Guild<H>| g@)
    }
}

impl<H> InternalHandler<H> {
    /// Every room holds a handle exactly while it plays.
    pub open spec fn wf(&self) -> bool {
        forall|id: u64| #[trigger] self@.contains_key(id) ==> self@[id].wf()
    }

    pub fn new() -> (r: InternalHandler<H>)
        ensures
            r@ == Map::<u64, GuildView<H>>::empty(),
            r.wf(),
    {
        let r = InternalHandler { guilds: HashMap::new() };
        assert(r@ =~= Map::<u64, GuildView<H>>::empty());
        r
    }

    /// Whether room `id` is tracked.
    pub fn contains(&self, id: u64) -> (r: bool)
        ensures
            r == self@.contains_key(id),
    {
        self.guilds.contains_key(&id)
    }

    /// The state of room `id`, if it is tracked.
    pub fn get(&self, id: u64) -> (r: Option<&Guild<H>>)
        ensures
            self@.contains_key(id) ==> (r matches Some(g) && g@ == self@[id]),
            !self@.contains_key(id) ==> r is None,
    {
        self.guilds.get(&id)
    }

    /// Takes room `id` out of the registry; nothing happens if it is absent.
    pub fn remove(&mut self, id: u64)
        requires
            old(self).wf(),
        ensures
            final(self)@ == old(self)@.remove(id),
            final(self).wf(),
    {
        self.guilds.remove(&id);
        assert(self@ =~= old(self)@.remove(id));
    }

    /// Puts `g` in the registry as room `id`.
    fn put(&mut self, id: u64, g: Guild<H>)
        ensures
            final(self)@ == old(self)@.insert(id, g@),
    {
        self.guilds.insert(id, g);
        assert(self@ =~= old(self)@.insert(id, g@));
    }

    /// Takes room `id` out for a change, creating it on `channel_id` if it
    /// is absent and binding it to `channel_id` if it is there.
    fn take_or_create(&mut self, id: u64, channel_id: u64) -> (g: Guild<H>)
        requires
            old(self).wf(),
        ensures
            g@ == room_for(old(self)@, id, channel_id),
            final(self)@ == old(self)@.remove(id),
            final(self).wf(),
            g@.wf(),
    {
        let g = match self.guilds.remove(&id) {
            Some(g) => {
                let mut g = g;
                g.relocate(channel_id);
                g
            },
            None => Guild::new(channel_id),
        };
        assert(self@ =~= old(self)@.remove(id));
        g
    }

    /// Appends `songs` in order to the queue of room `id`, which is created
    /// on `channel_id` if absent and otherwise moved to it. Returns the
    /// 1-based queue position of the first of them.
    pub fn enqueue(&mut self, id: u64, channel_id: u64, songs: VecDeque<Song>) -> (pos: usize)
        requires
            old(self).wf(),
            old(self)@.contains_key(id) ==> old(self)@[id].queue.len() + songs@.len() < usize::MAX,
            songs@.len() < usize::MAX,
        ensures
            final(self)@ == old(self)@.insert(
                id,
                with_queued(room_for(old(self)@, id, channel_id), locators(songs@)),
            ),
            pos == room_for(old(self)@, id, channel_id).queue.len() + 1,
            final(self).wf(),
    {
        let mut g = self.take_or_create(id, channel_id);
        let pos = g.enqueue_all(songs);
        self.put(id, g);
        pos
    }

    /// Advances room `id`: see `next_step`. A room with nothing left to play
    /// is removed; the caller then leaves its channel. An untracked room
    /// (one torn down already) gives `Gone` and nothing changes.
    pub fn check_guild_queue(&mut self, id: u64) -> (r: Advance)
        requires
            old(self).wf(),
        ensures
            !old(self)@.contains_key(id) ==> r is Gone && final(self)@ == old(self)@,
            old(self)@.contains_key(id) ==> r@ == next_step(old(self)@[id]) && final(self)@
                == rooms_after_advance(old(self)@, id),
            final(self).wf(),
    {
        match self.guilds.remove(&id) {
            None => {
                assert(self@ =~= old(self)@);
                Advance::Gone
            },
            Some(g) => {
                let mut g = g;
                let a = g.advance();
                assert(self@ =~= old(self)@.remove(id));
                match a {
                    Advance::Teardown(_) => {},
                    _ => {
                        self.put(id, g);
                    },
                }
                a
            },
        }
    }

    /// Records `song`, which an advance of room `id` handed out and whose
    /// stream the caller started under `handle`, as playing there. Returns
    /// false, and changes nothing, where the room is gone or no start is
    /// pending in it; the caller then stops the stream.
    pub fn start_playing(&mut self, id: u64, song: Song, handle: H) -> (r: bool)
        requires
            old(self).wf(),
        ensures
            r == (old(self)@.contains_key(id) && old(self)@[id].starting),
            r ==> final(self)@ == old(self)@.insert(id, playing(old(self)@[id], song@, handle)),
            !r ==> final(self)@ == old(self)@,
            final(self).wf(),
    {
        match self.guilds.remove(&id) {
            None => {
                assert(self@ =~= old(self)@);
                false
            },
            Some(g) => {
                let mut g = g;
                assert(old(self)@.contains_key(id) && g@ == old(self)@[id]);
                let pending = g.is_starting();
                if pending {
                    g.start_playing(song, handle);
                }
                self.put(id, g);
                if !pending {
                    assert(self@ =~= old(self)@);
                }
                pending
            },
        }
    }

    /// Gives up the pending start of room `id`, whose song could not be
    /// joined or streamed: the song is dropped and the room is idle again.
    /// Where the room is gone this does nothing.
    pub fn start_failed(&mut self, id: u64)
        requires
            old(self).wf(),
        ensures
            old(self)@.contains_key(id) ==> final(self)@ == old(self)@.insert(
                id,
                abandoned(old(self)@[id]),
            ),
            !old(self)@.contains_key(id) ==> final(self)@ == old(self)@,
            final(self).wf(),
    {
        match self.guilds.remove(&id) {
            None => {
                assert(self@ =~= old(self)@);
            },
            Some(g) => {
                let mut g = g;
                g.start_failed();
                assert(self@ =~= old(self)@.remove(id));
                self.put(id, g);
            },
        }
    }

    /// Handles the end of the song that played in room `id`, whatever ended
    /// it: clears it and advances the room. Where the room is already gone
    /// this gives `Gone` and changes nothing.
    pub fn song_ended(&mut self, id: u64) -> (r: Advance)
        requires
            old(self).wf(),
        ensures
            !old(self)@.contains_key(id) ==> r is Gone && final(self)@ == old(self)@,
            old(self)@.contains_key(id) ==> r@ == next_step(cleared(old(self)@[id]))
                && final(self)@ == rooms_after_advance(
                    old(self)@.insert(id, cleared(old(self)@[id])),
                    id,
                ),
            final(self).wf(),
    {
        match self.guilds.remove(&id) {
            None => {
                assert(self@ =~= old(self)@);
                Advance::Gone
            },
            Some(g) => {
                let mut g = g;
                g.clear_playing();
                self.put(id, g);
                proof {
                    assert(self@ =~= old(self)@.insert(id, cleared(old(self)@[id])));
                }
                self.check_guild_queue(id)
            },
        }
    }

    /// The handle of the song that plays in room `id`, for the caller to stop
    /// it; its end then drives the next advance as usual. An untracked room,
    /// or one where nothing plays, is an error.
    pub fn skip(&self, id: u64) -> (r: Result<&H, PlayError>)
        ensures
            self@.contains_key(id) && self@[id].handle is Some ==> (r matches Ok(h)
                && *h == self@[id].handle->0),
            !(self@.contains_key(id) && self@[id].handle is Some) ==> (r matches Err(e)
                && e is BotNotPlaying),
    {
        match self.guilds.get(&id) {
            None => Err(PlayError::BotNotPlaying),
            Some(g) => g.skip(),
        }
    }
}

/// Songs queued by one request, then by another, wait in the room behind
/// those already there, each request's songs together and in their order,
/// whichever channels the two requests came from.
pub proof fn lemma_enqueue_order<H>(
    m: Map<u64, GuildView<H>>,
    id: u64,
    first_channel: u64,
    second_channel: u64,
    first: Seq<Seq<char>>,
    second: Seq<Seq<char>>,
)
    ensures
        ({
            let once = m.insert(id, with_queued(room_for(m, id, first_channel), first));
            let twice = once.insert(id, with_queued(room_for(once, id, second_channel), second));
            twice[id].queue == room_for(m, id, first_channel).queue + first + second
        }),
{
    let once = m.insert(id, with_queued(room_for(m, id, first_channel), first));
    assert(once.contains_key(id));
    assert(room_for(once, id, second_channel).queue == room_for(m, id, first_channel).queue + first);
    assert(room_for(m, id, first_channel).queue + first + second =~= (room_for(
        m,
        id,
        first_channel,
    ).queue + first) + second);
}

/// A room whose last song has ended, with nothing queued behind it, is
/// removed by the advance that follows, and a later lookup finds nothing.
pub proof fn lemma_drain_to_empty<H>(m: Map<u64, GuildView<H>>, id: u64)
    requires
        m.contains_key(id),
        m[id].wf(),
        m[id].now_playing is Some,
        m[id].queue.len() == 0,
    ensures
        next_step(m.insert(id, cleared(m[id]))[id]) == Step::Teardown(m[id].channel_id),
        !rooms_after_advance(m.insert(id, cleared(m[id])), id).contains_key(id),
{
}

/// Removing a room that is already gone changes nothing, so removing it
/// twice is the same as removing it once.
pub proof fn lemma_remove_idempotent<H>(m: Map<u64, GuildView<H>>, id: u64)
    ensures
        !m.contains_key(id) ==> m.remove(id) == m,
        m.remove(id).remove(id) == m.remove(id),
{
    assert(m.remove(id).remove(id) =~= m.remove(id));
    if !m.contains_key(id) {
        assert(m.remove(id) =~= m);
    }
}

} // verus!
