//! What each voice command decides.
//!
//! A command handler talks to the chat service, runs the extraction tool and
//! starts the streaming pipeline. Between those steps it asks here what to do
//! next: each function takes what the last step brought and answers with the
//! next step or with the reply for the user. An audio source or a session
//! that a function takes out of the registry is handed to the caller, who
//! releases it.

use crate::decimal::{decimal, push_decimal};
use crate::error::{viewed, ErrorView, YtdlError};
use crate::record::{MetadataView, YtdlMetadata};
use crate::voice::{joined, ChannelId, GuildId, SessionState, VoiceManager, VoiceSession};
use vstd::prelude::*;
use vstd::string::{StrSliceExecFns, StringExecFns};

verus! {

/// What a command lets the user know.
#[derive(Debug)]
pub enum Reply {
    /// The command came from a group or a direct message, where there is no
    /// guild.
    Unsupported,
    /// The user who asked the bot to join is in no voice channel.
    UserNotInVoice,
    /// The bot joined this channel.
    Joined(ChannelId),
    /// The bot left its voice channel.
    Left,
    /// The bot was asked to leave and is in no voice channel.
    NotJoined,
    /// The bot was asked to play and is in no voice channel.
    NotInVoice,
    /// The search found nothing.
    NoResults,
    /// The bot now plays this item.
    Playing(YtdlMetadata),
}

/// A reply, as contracts see it.
pub ghost enum ReplyView {
    Unsupported,
    UserNotInVoice,
    Joined(ChannelId),
    Left,
    NotJoined,
    NotInVoice,
    NoResults,
    Playing(MetadataView),
}

impl DeepView for Reply {
    type V = ReplyView;

    open spec fn deep_view(&self) -> ReplyView {
        match self {
            Reply::Unsupported => ReplyView::Unsupported,
            Reply::UserNotInVoice => ReplyView::UserNotInVoice,
            Reply::Joined(channel) => ReplyView::Joined(*channel),
            Reply::Left => ReplyView::Left,
            Reply::NotJoined => ReplyView::NotJoined,
            Reply::NotInVoice => ReplyView::NotInVoice,
            Reply::NoResults => ReplyView::NoResults,
            Reply::Playing(track) => ReplyView::Playing(track@),
        }
    }
}

impl View for Reply {
    type V = ReplyView;

    open spec fn view(&self) -> ReplyView {
        self.deep_view()
    }
}

/// How a channel is written in a message so that the chat service shows it
/// as a link: its number in decimal between `<#` and `>`.
pub open spec fn mention(channel: ChannelId) -> Seq<char> {
    "<#"@ + decimal(channel.0 as nat) + ">"@
}

impl ReplyView {
    /// The words of the reply. For what plays now they are the heading under
    /// which the item is shown.
    pub open spec fn text(self) -> Seq<char> {
        match self {
            ReplyView::Unsupported => "Groups and DMs not supported"@,
            ReplyView::UserNotInVoice => "User is not in a voice channel"@,
            ReplyView::Joined(channel) => "Joined "@ + mention(channel),
            ReplyView::Left => "Left voice channel"@,
            ReplyView::NotJoined => "Bot is not in a voice channel"@,
            ReplyView::NotInVoice => "Not in a voice channel"@,
            ReplyView::NoResults => "No results"@,
            ReplyView::Playing(track) => "Playing: "@ + track.fulltitle,
        }
    }
}

impl Reply {
    /// The words of the reply. For what plays now they are the heading under
    /// which the item is shown.
    pub fn text(&self) -> (text: String)
        ensures
            text@ == self@.text(),
    {
        match self {
            Reply::Unsupported => String::from_str("Groups and DMs not supported"),
            Reply::UserNotInVoice => String::from_str("User is not in a voice channel"),
            Reply::Joined(channel) => {
                let mut text = String::from_str("Joined ");
                text.append("<#");
                push_decimal(&mut text, channel.0);
                text.append(">");
                assert(text@ =~= "Joined "@ + mention(*channel));
                text
            },
            Reply::Left => String::from_str("Left voice channel"),
            Reply::NotJoined => String::from_str("Bot is not in a voice channel"),
            Reply::NotInVoice => String::from_str("Not in a voice channel"),
            Reply::NoResults => String::from_str("No results"),
            Reply::Playing(track) => String::from_str("Playing: ").concat(track.fulltitle.as_str()),
        }
    }
}

/// The registry after the audio source of `guild`, if it has one, was
/// detached.
pub open spec fn silenced<C, S>(
    sessions: Map<GuildId, SessionState<C, S>>,
    guild: GuildId,
) -> Map<GuildId, SessionState<C, S>> {
    if sessions.contains_key(guild) {
        sessions.insert(guild, sessions[guild].with_source(None))
    } else {
        sessions
    }
}

/// What `stop` did.
pub struct Stopped<S> {
    /// What to tell the user, if anything.
    pub reply: Option<Reply>,
    /// The audio source that was playing, to be released.
    pub released: Option<S>,
}

/// Stops what the guild's session plays.
///
/// Outside a guild the command is not supported, and in a guild without a
/// session there is nothing to stop: the user is told that the bot is in no
/// voice channel, and nothing changes. A session is silenced without a word:
/// what it played is handed back, and an idle one stays idle.
pub fn stop<C, S>(manager: &mut VoiceManager<C, S>, guild: Option<GuildId>) -> (done: Stopped<S>)
    ensures
        match guild {
            None => {
                &&& done.reply.deep_view() == Some(ReplyView::Unsupported)
                &&& done.released is None
                &&& final(manager)@ == old(manager)@
            },
            Some(guild) => if old(manager)@.contains_key(guild) {
                &&& done.reply is None
                &&& done.released == old(manager)@[guild].source
                &&& final(manager)@ == silenced(old(manager)@, guild)
            } else {
                &&& done.reply.deep_view() == Some(ReplyView::NotInVoice)
                &&& done.released is None
                &&& final(manager)@ == old(manager)@
            },
        },
        old(manager).wf() ==> final(manager).wf(),
{
    let guild = match guild {
        Some(guild) => guild,
        None => {
            return Stopped { reply: Some(Reply::Unsupported), released: None };
        },
    };
    match manager.get_mut(guild) {
        Some(session) => Stopped { reply: None, released: session.stop() },
        None => Stopped { reply: Some(Reply::NotInVoice), released: None },
    }
}

/// Whom to connect to for a join command: the guild of the message and the
/// voice channel that its author is in. Without a guild the command is not
/// supported; that is judged first. Without a channel there is nothing to
/// join.
pub fn join_target(guild: Option<GuildId>, channel: Option<ChannelId>) -> (target: Result<
    (GuildId, ChannelId),
    Reply,
>)
    ensures
        match (guild, channel) {
            (None, _) => target matches Err(reply) && reply@ == ReplyView::Unsupported,
            (Some(_), None) => target matches Err(reply) && reply@ == ReplyView::UserNotInVoice,
            (Some(guild), Some(channel)) => target == Ok::<(GuildId, ChannelId), Reply>(
                (guild, channel),
            ),
        },
{
    match guild {
        None => Err(Reply::Unsupported),
        Some(guild) => match channel {
            None => Err(Reply::UserNotInVoice),
            Some(channel) => Ok((guild, channel)),
        },
    }
}

/// Files what the voice client answered when asked to connect `guild` to
/// `channel`: with a connection the guild has its one session on it and the
/// user is told so, without one the join failed and the registry is as it
/// was.
pub fn join<C, S>(
    manager: &mut VoiceManager<C, S>,
    guild: GuildId,
    channel: ChannelId,
    link: Option<C>,
) -> (outcome: Result<Reply, YtdlError>)
    ensures
        final(manager)@ == joined(old(manager)@, guild, link),
        viewed(outcome) == match link {
            Some(_) => Ok::<ReplyView, ErrorView>(ReplyView::Joined(channel)),
            None => Err(ErrorView::ConnectionFailure),
        },
        old(manager).wf() ==> final(manager).wf(),
{
    match manager.join(guild, link) {
        Some(_) => Ok(Reply::Joined(channel)),
        None => Err(YtdlError::ConnectionFailure),
    }
}

/// What `leave` did.
pub struct Departed<C, S> {
    /// What to tell the user.
    pub reply: Reply,
    /// The session that was removed, for its connection to be torn down.
    pub removed: Option<VoiceSession<C, S>>,
}

/// Leaves the guild's voice channel: its session is taken out of the
/// registry. Outside a guild the command is not supported, and a guild
/// without a session is told so.
pub fn leave<C, S>(manager: &mut VoiceManager<C, S>, guild: Option<GuildId>) -> (done: Departed<
    C,
    S,
>)
    ensures
        match guild {
            None => {
                &&& done.reply@ == ReplyView::Unsupported
                &&& done.removed is None
                &&& final(manager)@ == old(manager)@
            },
            Some(guild) => {
                &&& final(manager)@ == old(manager)@.remove(guild)
                &&& if old(manager)@.contains_key(guild) {
                    &&& done.reply@ == ReplyView::Left
                    &&& done.removed matches Some(session)
                    &&& session@ == old(manager)@[guild]
                } else {
                    &&& done.reply@ == ReplyView::NotJoined
                    &&& done.removed is None
                }
            },
        },
        old(manager).wf() ==> final(manager).wf(),
{
    let guild = match guild {
        Some(guild) => guild,
        None => {
            return Departed { reply: Reply::Unsupported, removed: None };
        },
    };
    match manager.remove(guild) {
        Some(session) => Departed { reply: Reply::Left, removed: Some(session) },
        None => Departed { reply: Reply::NotJoined, removed: None },
    }
}

/// Whether the argument of a play command is a URL rather than a search
/// phrase: it begins with `http`.
pub open spec fn is_url(arg: Seq<char>) -> bool {
    "http"@.is_prefix_of(arg)
}

fn names_url(arg: &str) -> (url: bool)
    ensures
        url == is_url(arg@),
{
    proof {
        reveal_strlit("http");
    }
    if arg.unicode_len() < 4 {
        return false;
    }
    let url = arg.get_char(0) == 'h' && arg.get_char(1) == 't' && arg.get_char(2) == 't'
        && arg.get_char(3) == 'p';
    proof {
        let head = arg@.subrange(0, 4);
        assert(head[0] == arg@[0] && head[1] == arg@[1] && head[2] == arg@[2] && head[3]
            == arg@[3]);
        assert(url ==> "http"@ =~= head);
    }
    url
}

/// What a play command does next.
#[derive(Debug)]
pub enum PlayStep {
    /// Run the extraction tool in metadata mode on `url` and hand the
    /// outcome to [`play_resolved`].
    Resolve { guild: GuildId, url: String },
    /// Run the extraction tool in search mode for up to `max_results`
    /// matches of `term` and hand the outcome to [`play_found`].
    Search { guild: GuildId, term: String, max_results: u8 },
    /// Start the streaming pipeline on `url`, hand its source to the guild's
    /// voice connection and hand the outcome, with `track`, to
    /// [`play_opened`].
    Open { guild: GuildId, url: String, track: YtdlMetadata },
    /// Tell the user; the command is done.
    Done(Reply),
}

/// A step, as contracts see it.
pub ghost enum PlayStepView {
    Resolve { guild: GuildId, url: Seq<char> },
    Search { guild: GuildId, term: Seq<char>, max_results: u8 },
    Open { guild: GuildId, url: Seq<char>, track: MetadataView },
    Done(ReplyView),
}

impl DeepView for PlayStep {
    type V = PlayStepView;

    open spec fn deep_view(&self) -> PlayStepView {
        match self {
            PlayStep::Resolve { guild, url } => PlayStepView::Resolve { guild: *guild, url: url@ },
            PlayStep::Search { guild, term, max_results } => PlayStepView::Search {
                guild: *guild,
                term: term@,
                max_results: *max_results,
            },
            PlayStep::Open { guild, url, track } => PlayStepView::Open {
                guild: *guild,
                url: url@,
                track: track@,
            },
            PlayStep::Done(reply) => PlayStepView::Done(reply@),
        }
    }
}

impl View for PlayStep {
    type V = PlayStepView;

    open spec fn view(&self) -> PlayStepView {
        self.deep_view()
    }
}

/// How a play command in `guild` sets out, once the bot is known to be in a
/// voice channel there: a URL is resolved, anything else is searched for,
/// and of a search only the best match is wanted.
pub open spec fn first_step(guild: GuildId, arg: Seq<char>) -> PlayStepView {
    if is_url(arg) {
        PlayStepView::Resolve { guild, url: arg }
    } else {
        PlayStepView::Search { guild, term: arg, max_results: 1 }
    }
}

/// What `play` did.
pub struct Begun<S> {
    /// What to do next.
    pub next: PlayStep,
    /// The audio source that was playing, to be released.
    pub released: Option<S>,
}

/// Begins a play command with the argument `arg`.
///
/// Outside a guild the command is not supported, and in a guild without a
/// session the bot is in no voice channel: the user is told, and nothing
/// changes. Otherwise what the session plays is stopped at once, before
/// anything is resolved, and the next step is the one that `arg` asks for.
pub fn play<C, S>(manager: &mut VoiceManager<C, S>, guild: Option<GuildId>, arg: &str) -> (begun:
    Begun<S>)
    ensures
        match guild {
            None => {
                &&& begun.next@ == PlayStepView::Done(ReplyView::Unsupported)
                &&& begun.released is None
                &&& final(manager)@ == old(manager)@
            },
            Some(guild) => if old(manager)@.contains_key(guild) {
                &&& begun.next@ == first_step(guild, arg@)
                &&& begun.released == old(manager)@[guild].source
                &&& final(manager)@ == silenced(old(manager)@, guild)
            } else {
                &&& begun.next@ == PlayStepView::Done(ReplyView::NotInVoice)
                &&& begun.released is None
                &&& final(manager)@ == old(manager)@
            },
        },
        old(manager).wf() ==> final(manager).wf(),
{
    let guild = match guild {
        Some(guild) => guild,
        None => {
            return Begun { next: PlayStep::Done(Reply::Unsupported), released: None };
        },
    };
    let released = match manager.get_mut(guild) {
        Some(session) => session.stop(),
        None => {
            return Begun { next: PlayStep::Done(Reply::NotInVoice), released: None };
        },
    };
    let next = if names_url(arg) {
        PlayStep::Resolve { guild, url: String::from_str(arg) }
    } else {
        PlayStep::Search { guild, term: String::from_str(arg), max_results: 1 }
    };
    Begun { next, released }
}

/// Goes on after the extraction tool described the item at `url`: the
/// stream of that URL is opened for the record, and an error ends the
/// command.
pub fn play_resolved(guild: GuildId, url: String, resolved: Result<YtdlMetadata, YtdlError>) -> (next:
    Result<PlayStep, YtdlError>)
    ensures
        viewed(next) == match resolved {
            Ok(track) => Ok::<PlayStepView, ErrorView>(
                PlayStepView::Open { guild, url: url@, track: track@ },
            ),
            Err(error) => Err(error@),
        },
{
    match resolved {
        Ok(track) => Ok(PlayStep::Open { guild, url, track }),
        Err(error) => Err(error),
    }
}

/// Goes on after the extraction tool searched: the first match is the
/// track, and the stream of its page is opened. No match is told to the
/// user, and an error ends the command.
pub fn play_found(guild: GuildId, found: Result<Vec<YtdlMetadata>, YtdlError>) -> (next: Result<
    PlayStep,
    YtdlError,
>)
    ensures
        viewed(next) == match found {
            Ok(matches) => Ok::<PlayStepView, ErrorView>(
                if matches.len() == 0 {
                    PlayStepView::Done(ReplyView::NoResults)
                } else {
                    PlayStepView::Open {
                        guild,
                        url: matches[0].webpage_url@,
                        track: matches[0]@,
                    }
                },
            ),
            Err(error) => Err(error@),
        },
{
    match found {
        Ok(mut matches) => {
            if matches.len() == 0 {
                return Ok(PlayStep::Done(Reply::NoResults));
            }
            let track = matches.remove(0);
            let url = track.webpage_url.clone();
            Ok(PlayStep::Open { guild, url, track })
        },
        Err(error) => Err(error),
    }
}

/// What `play_opened` did.
pub struct Attached<S> {
    /// What to tell the user.
    pub reply: Reply,
    /// The audio source that is not, or no longer, part of the session, to
    /// be released.
    pub released: Option<S>,
}

/// Ends a play command after the streaming pipeline was started for
/// `track` and its source was handed to the guild's voice connection.
///
/// `opened` is what came of that: the handle of the source that now plays,
/// `None` where the voice client had no connection of the guild to play it
/// on, or the error that kept the pipeline from starting.
///
/// An error ends the command and changes nothing. Without a connection the
/// user is told that the bot is in no voice channel, and nothing changes. A
/// handle is attached to the guild's session in place of what it played, and
/// the user is told what plays now. Where the guild has no session any more,
/// the handle is handed back and the user is told that the bot is in no
/// voice channel.
pub fn play_opened<C, S>(
    manager: &mut VoiceManager<C, S>,
    guild: GuildId,
    track: YtdlMetadata,
    opened: Result<Option<S>, YtdlError>,
) -> (outcome: Result<Attached<S>, YtdlError>)
    ensures
        match opened {
            Err(error) => {
                &&& outcome matches Err(same)
                &&& same@ == error@
                &&& final(manager)@ == old(manager)@
            },
            Ok(None) => {
                &&& outcome matches Ok(done)
                &&& done.reply@ == ReplyView::NotInVoice
                &&& done.released is None
                &&& final(manager)@ == old(manager)@
            },
            Ok(Some(source)) => if old(manager)@.contains_key(guild) {
                &&& outcome matches Ok(done)
                &&& done.reply@ == ReplyView::Playing(track@)
                &&& done.released == old(manager)@[guild].source
                &&& final(manager)@ == old(manager)@.insert(
                    guild,
                    old(manager)@[guild].with_source(Some(source)),
                )
            } else {
                &&& outcome matches Ok(done)
                &&& done.reply@ == ReplyView::NotInVoice
                &&& done.released == Some(source)
                &&& final(manager)@ == old(manager)@
            },
        },
        old(manager).wf() ==> final(manager).wf(),
{
    let source = match opened {
        Ok(Some(source)) => source,
        Ok(None) => {
            return Ok(Attached { reply: Reply::NotInVoice, released: None });
        },
        Err(error) => {
            return Err(error);
        },
    };
    match manager.get_mut(guild) {
        Some(session) => {
            let released = session.play(source);
            Ok(Attached { reply: Reply::Playing(track), released })
        },
        None => Ok(Attached { reply: Reply::NotInVoice, released: Some(source) }),
    }
}

} // verus!
