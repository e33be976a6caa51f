//! Voice sessions and the registry that owns them.
//!
//! A guild has at most one voice session. A session owns the handle of its
//! voice connection and the handle of the audio source that is playing, if
//! any. Both handles are opaque here: the registry stores and hands them
//! back, and whoever made them releases them.

use std::collections::hash_map::Entry;
use std::collections::HashMap;
use vstd::prelude::*;

verus! {

broadcast use vstd::std_specs::hash::group_hash_axioms;

/// Identifies a chat community.
#[derive(Clone, Copy, Debug, PartialEq, Eq, Structural, Hash)]
pub struct GuildId(pub u64);

/// Identifies a voice channel of a guild.
#[derive(Clone, Copy, Debug, PartialEq, Eq, Structural, Hash)]
pub struct ChannelId(pub u64);

/// What a session is, as contracts see it.
pub ghost struct SessionState<C, S> {
    /// The guild that the session belongs to.
    pub guild: GuildId,
    /// The handle of the voice connection.
    pub connection: C,
    /// The handle of the audio source that is playing, if any.
    pub source: Option<S>,
}

impl<C, S> SessionState<C, S> {
    /// The same session with `source` attached, or with none.
    pub open spec fn with_source(self, source: Option<S>) -> Self {
        SessionState { source, ..self }
    }

    /// An idle session of `guild` over `connection`.
    pub open spec fn idle(guild: GuildId, connection: C) -> Self {
        SessionState { guild, connection, source: None }
    }
}

/// The occupancy of one voice channel in one guild.
///
/// A session is idle (no audio source) or playing (exactly one).
pub struct VoiceSession<C, S> {
    guild: GuildId,
    connection: C,
    source: Option<S>,
}

impl<C, S> View for VoiceSession<C, S> {
    type V = SessionState<C, S>;

    closed spec fn view(&self) -> SessionState<C, S> {
        SessionState { guild: self.guild, connection: self.connection, source: self.source }
    }
}

impl<C, S> VoiceSession<C, S> {
    /// An idle session of `guild` over `connection`.
    pub fn new(guild: GuildId, connection: C) -> (session: Self)
        ensures
            session@ == SessionState::<C, S>::idle(guild, connection),
    {
        VoiceSession { guild, connection, source: None }
    }

    /// The guild that the session belongs to.
    pub fn guild(&self) -> (guild: GuildId)
        ensures
            guild == self@.guild,
    {
        self.guild
    }

    /// The handle of the voice connection.
    pub fn connection(&self) -> (connection: &C)
        ensures
            *connection == self@.connection,
    {
        &self.connection
    }

    /// The handle of the audio source that is playing, if any.
    pub fn source(&self) -> (source: Option<&S>)
        ensures
            source == match self@.source {
                Some(playing) => Some(&playing),
                None => None,
            },
    {
        self.source.as_ref()
    }

    /// Whether an audio source is attached.
    pub fn is_playing(&self) -> (playing: bool)
        ensures
            playing == self@.source.is_some(),
    {
        self.source.is_some()
    }

    /// Attaches `source` and hands back the source it displaced, if any.
    ///
    /// The displaced source is no longer part of the session when this
    /// returns: the caller stops it by releasing it, so two sources are never
    /// attached at once.
    pub fn play(&mut self, source: S) -> (displaced: Option<S>)
        ensures
            displaced == old(self)@.source,
            final(self)@ == old(self)@.with_source(Some(source)),
    {
        let displaced = self.source.take();
        self.source = Some(source);
        displaced
    }

    /// Detaches the audio source and hands it back; `None` where the session
    /// was idle, which it then still is.
    pub fn stop(&mut self) -> (displaced: Option<S>)
        ensures
            displaced == old(self)@.source,
            final(self)@ == old(self)@.with_source(None),
    {
        self.source.take()
    }

    /// Takes the session apart, for the connection and the source to be
    /// released.
    pub fn into_parts(self) -> (parts: (C, Option<S>))
        ensures
            parts == (self@.connection, self@.source),
    {
        (self.connection, self.source)
    }
}

/// The session that `guild` has once `connection` was filed for it: an idle
/// one where it had none, else the one it had, with what it played, over
/// `connection`.
pub open spec fn joined_state<C, S>(
    sessions: Map<GuildId, SessionState<C, S>>,
    guild: GuildId,
    connection: C,
) -> SessionState<C, S> {
    if sessions.contains_key(guild) {
        SessionState::idle(guild, connection).with_source(sessions[guild].source)
    } else {
        SessionState::idle(guild, connection)
    }
}

/// The sessions after the outcome `link` of connecting `guild` was filed: no
/// connection changes nothing.
pub open spec fn joined<C, S>(
    sessions: Map<GuildId, SessionState<C, S>>,
    guild: GuildId,
    link: Option<C>,
) -> Map<GuildId, SessionState<C, S>> {
    match link {
        Some(connection) => sessions.insert(guild, joined_state(sessions, guild, connection)),
        None => sessions,
    }
}

/// The sessions after each of `links` was filed for `guild`, one after the
/// other.
pub open spec fn joined_all<C, S>(
    sessions: Map<GuildId, SessionState<C, S>>,
    guild: GuildId,
    links: Seq<Option<C>>,
) -> Map<GuildId, SessionState<C, S>>
    decreases links.len(),
{
    if links.len() == 0 {
        sessions
    } else {
        joined(joined_all(sessions, guild, links.drop_last()), guild, links.last())
    }
}

/// Every session in `sessions` is filed under the guild that it belongs to.
pub open spec fn filed_by_guild<C, S>(sessions: Map<GuildId, SessionState<C, S>>) -> bool {
    forall|guild: GuildId| #[trigger]
        sessions.contains_key(guild) ==> sessions[guild].guild == guild
}

/// However many joins of one guild are filed, and in whatever order, the
/// guild ends with one session: it has one exactly if it had one before or a
/// connection was made, and the registry has grown by no more than that one.
/// Every other guild has what it had.
///
/// Joins take the registry exclusively, so joins that race come one after
/// the other in some order, and this holds of every order.
pub proof fn law_one_session_per_guild<C, S>(
    sessions: Map<GuildId, SessionState<C, S>>,
    guild: GuildId,
    links: Seq<Option<C>>,
)
    requires
        sessions.dom().finite(),
    ensures
        joined_all(sessions, guild, links).dom().finite(),
        joined_all(sessions, guild, links).contains_key(guild) <==> sessions.contains_key(guild)
            || exists|at: int| 0 <= at < links.len() && links[at] is Some,
        joined_all(sessions, guild, links).len() == sessions.len() + if !sessions.contains_key(
            guild,
        ) && joined_all(sessions, guild, links).contains_key(guild) {
            1nat
        } else {
            0nat
        },
        forall|other: GuildId|
            other != guild ==> {
                &&& #[trigger] joined_all(sessions, guild, links).contains_key(other)
                    == sessions.contains_key(other)
                &&& joined_all(sessions, guild, links)[other] == sessions[other]
            },
        filed_by_guild(sessions) ==> filed_by_guild(joined_all(sessions, guild, links)),
    decreases links.len(),
{
    if links.len() > 0 {
        let earlier = links.drop_last();
        let before = joined_all(sessions, guild, earlier);
        law_one_session_per_guild(sessions, guild, earlier);
        if links.last() is Some {
            assert(links[links.len() - 1] is Some);
        } else {
            // The last link made no connection: one was made among all
            // exactly if one was made among the earlier.
            if before.contains_key(guild) && !sessions.contains_key(guild) {
                let at = choose|at: int| 0 <= at < earlier.len() && earlier[at] is Some;
                assert(links[at] is Some);
            }
            assert forall|at: int| 0 <= at < links.len() && links[at] is Some implies 0 <= at
                < earlier.len() && earlier[at] is Some by {}
        }
    }
}

/// Joining again is idempotent: of two joins of one guild the second alone
/// decides the connection, and all else is as after the first. Over the same
/// connection the second join changes nothing.
pub proof fn law_rejoin_is_idempotent<C, S>(
    sessions: Map<GuildId, SessionState<C, S>>,
    guild: GuildId,
    first: C,
    second: C,
)
    ensures
        joined(joined(sessions, guild, Some(first)), guild, Some(second)) == joined(
            sessions,
            guild,
            Some(second),
        ),
        joined(joined(sessions, guild, Some(first)), guild, Some(first)) == joined(
            sessions,
            guild,
            Some(first),
        ),
        joined(joined(sessions, guild, Some(first)), guild, None) == joined(
            sessions,
            guild,
            Some(first),
        ),
{
    let once = joined(sessions, guild, Some(first));
    assert(joined(once, guild, Some(second)) =~= joined(sessions, guild, Some(second)));
    assert(joined(once, guild, Some(first)) =~= once);
}

/// Once a guild's session is removed the guild has none, and removing where
/// there is none changes nothing.
pub proof fn law_remove_then_get<C, S>(sessions: Map<GuildId, SessionState<C, S>>, guild: GuildId)
    ensures
        !sessions.remove(guild).contains_key(guild),
        !sessions.contains_key(guild) ==> sessions.remove(guild) == sessions,
        forall|other: GuildId|
            other != guild ==> {
                &&& #[trigger] sessions.remove(guild).contains_key(other) == sessions.contains_key(
                    other,
                )
                &&& sessions.remove(guild)[other] == sessions[other]
            },
{
    if !sessions.contains_key(guild) {
        assert(sessions.remove(guild) =~= sessions);
    }
}

/// A session that is told to play `first` and then `second` plays `second`
/// alone: the second call takes `first` out and hands it back, for whatever
/// the session played before.
pub proof fn law_play_replaces<C, S>(session: SessionState<C, S>, first: S, second: S)
    ensures
        session.with_source(Some(first)).source == Some(first),
        session.with_source(Some(first)).with_source(Some(second)) == session.with_source(
            Some(second),
        ),
        session.with_source(Some(first)).with_source(Some(second)).source == Some(second),
{
}

/// The registry: for each guild at most one voice session.
pub struct VoiceManager<C, S> {
    sessions: HashMap<u64, VoiceSession<C, S>>,
}

impl<C, S> View for VoiceManager<C, S> {
    type V = Map<GuildId, SessionState<C, S>>;

    closed spec fn view(&self) -> Map<GuildId, SessionState<C, S>> {
        Map::new(
            |guild: GuildId| self.sessions@.contains_key(guild.0),
            |guild: GuildId| self.sessions@[guild.0]@,
        )
    }
}

impl<C, S> VoiceManager<C, S> {
    /// Every session is filed under the guild that it belongs to.
    pub open spec fn wf(&self) -> bool {
        filed_by_guild(self@)
    }

    /// A registry without sessions.
    pub fn new() -> (manager: Self)
        ensures
            manager@ == Map::<GuildId, SessionState<C, S>>::empty(),
            manager.wf(),
    {
        let manager = VoiceManager { sessions: HashMap::new() };
        assert(manager@ =~= Map::<GuildId, SessionState<C, S>>::empty());
        manager
    }

    /// The session of `guild`, if it has one.
    pub fn get(&self, guild: GuildId) -> (found: Option<&VoiceSession<C, S>>)
        ensures
            found matches Some(session) ==> self@.contains_key(guild) && session@ == self@[guild],
            found is None ==> !self@.contains_key(guild),
    {
        self.sessions.get(&guild.0)
    }

    /// The session of `guild` for playback operations, if it has one.
    ///
    /// What the caller leaves in the session is what the registry then holds
    /// for `guild`; no other guild is touched.
    pub fn get_mut(&mut self, guild: GuildId) -> (found: Option<&mut VoiceSession<C, S>>)
        ensures
            found matches Some(session) ==> {
                &&& old(self)@.contains_key(guild)
                &&& session@ == old(self)@[guild]
                &&& final(self)@ == old(self)@.insert(guild, final(session)@)
            },
            found is None ==> !old(self)@.contains_key(guild) && final(self)@ == old(self)@,
    {
        match self.sessions.entry(guild.0) {
            Entry::Occupied(entry) => {
                let session = entry.into_mut();
                Some(session)
            },
            Entry::Vacant(_) => None,
        }
    }

    /// Files the outcome of connecting to a channel of `guild`.
    ///
    /// `link` is what the voice client answered: the handle of the
    /// connection, or `None` where it refused or failed. On `None` the
    /// registry stays as it was and nothing is returned. On a handle the
    /// guild's session is returned: a new idle one where the guild had none,
    /// else the one it had, moved onto the handle with its audio source kept.
    pub fn join(&mut self, guild: GuildId, link: Option<C>) -> (joined: Option<
        &mut VoiceSession<C, S>,
    >)
        ensures
            link is None ==> joined is None && final(self)@ == old(self)@,
            link matches Some(connection) ==> {
                &&& joined matches Some(session)
                &&& session@ == joined_state(old(self)@, guild, connection)
                &&& final(self)@ == old(self)@.insert(guild, final(session)@)
            },
    {
        match link {
            None => None,
            Some(connection) => {
                match self.sessions.entry(guild.0) {
                    Entry::Occupied(entry) => {
                        let session = entry.into_mut();
                        session.guild = guild;
                        session.connection = connection;
                        Some(session)
                    },
                    Entry::Vacant(entry) => {
                        Some(entry.insert(VoiceSession::new(guild, connection)))
                    },
                }
            },
        }
    }

    /// Takes the session of `guild` out of the registry and hands it back,
    /// for its connection to be torn down; `None`, and nothing changed, where
    /// the guild had none.
    pub fn remove(&mut self, guild: GuildId) -> (removed: Option<VoiceSession<C, S>>)
        ensures
            final(self)@ == old(self)@.remove(guild),
            removed matches Some(session) ==> old(self)@.contains_key(guild) && session@ == old(
                self,
            )@[guild],
            removed is None ==> !old(self)@.contains_key(guild),
            old(self).wf() ==> final(self).wf(),
    {
        let removed = self.sessions.remove(&guild.0);
        assert(self@ =~= old(self)@.remove(guild));
        removed
    }

    /// The number of sessions.
    pub fn len(&self) -> (count: usize)
        ensures
            count == self@.len(),
            self@.dom().finite(),
    {
        proof {
            self.lemma_one_session_per_key();
        }
        self.sessions.len()
    }

    /// A registry holds finitely many sessions.
    pub proof fn lemma_finite(&self)
        ensures
            self@.dom().finite(),
    {
        self.lemma_one_session_per_key();
    }

    /// The registry holds as many sessions as its table has keys.
    proof fn lemma_one_session_per_key(&self)
        ensures
            self@.dom().finite(),
            self@.len() == self.sessions@.len(),
    {
        let keys = self.sessions@.dom();
        let file = |key: u64| GuildId(key);
        assert forall|guild: GuildId| self@.dom().contains(guild) implies keys.map(file).contains(
            guild,
        ) by {
            assert(keys.contains(guild.0) && file(guild.0) == guild);
        }
        assert(keys.map(file) =~= self@.dom());
        vstd::set_lib::lemma_map_size(keys, self@.dom(), file);
    }
}

} // verus!
