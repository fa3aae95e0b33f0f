use vstd::prelude::*;

verus! {

/// Why a command that needs the voice channel is refused.
#[derive(Debug, Clone, Copy, PartialEq, Eq, Structural)]
pub enum VoiceCheckError {
    /// The user is not in a voice channel.
    NotInVoice,
    /// The bot is already in another voice channel.
    BotElsewhere,
}

/// The channel a voice command runs in, or why it is refused: the user must
/// be in a voice channel, and the bot in none or in the same one.
pub open spec fn voice_check(user: Option<u64>, bot: Option<u64>) -> Result<u64, VoiceCheckError> {
    match user {
        None => Err(VoiceCheckError::NotInVoice),
        Some(u) => match bot {
            Some(b) => if b != u {
                Err(VoiceCheckError::BotElsewhere)
            } else {
                Ok(u)
            },
            None => Ok(u),
        },
    }
}

/// Checks the voice channels of the user and the bot before a command.
pub fn check_voice_channels(user: Option<u64>, bot: Option<u64>) -> (res: Result<
    u64,
    VoiceCheckError,
>)
    ensures
        res == voice_check(user, bot),
{
    match user {
        None => Err(VoiceCheckError::NotInVoice),
        Some(u) => match bot {
            Some(b) => {
                if b != u {
                    Err(VoiceCheckError::BotElsewhere)
                } else {
                    Ok(u)
                }
            },
            None => Ok(u),
        },
    }
}

/// Whether the bot must (re)join: its call is not in the user's channel.
pub fn needs_join(current: Option<u64>, user: u64) -> (res: bool)
    ensures
        res == (current != Some(user)),
{
    match current {
        Some(c) => c != user,
        None => true,
    }
}

/// A voice state in a guild: the channel and whether its user is known to
/// be a bot (`None` when the user is not in the cache).
#[derive(Debug, Clone, Copy)]
pub struct VoiceMember {
    pub channel: Option<u64>,
    pub is_bot: Option<bool>,
}

/// How many of the voice states are in `channel` and not known to be bots.
pub open spec fn listener_count(states: Seq<VoiceMember>, channel: u64) -> nat
    decreases states.len(),
{
    if states.len() == 0 {
        0
    } else {
        let m = states.last();
        listener_count(states.drop_last(), channel) + if m.channel == Some(channel) && m.is_bot
            != Some(true) {
            1nat
        } else {
            0nat
        }
    }
}

/// Counts the listeners of `channel`: voice states there whose user is not a
/// bot, users missing from the cache counted as listeners.
pub fn count_listeners(states: &Vec<VoiceMember>, channel: u64) -> (res: usize)
    ensures
        res == listener_count(states@, channel),
{
    let n = states.len();
    let mut count: usize = 0;
    let mut i: usize = 0;
    while i < n
        invariant
            n == states@.len(),
            i <= n,
            count == listener_count(states@.take(i as int), channel),
            count <= i,
        decreases n - i,
    {
        proof {
            assert(states@.take(i + 1).drop_last() =~= states@.take(i as int));
        }
        let m = states[i];
        let counted = match m.channel {
            Some(c) => c == channel && match m.is_bot {
                Some(b) => !b,
                None => true,
            },
            None => false,
        };
        if counted {
            count = count + 1;
        }
        i = i + 1;
    }
    proof {
        assert(states@.take(n as int) =~= states@);
    }
    count
}

/// Whether the bot leaves its call after a voice state change: it is in a
/// channel and nobody listens there any more.
pub fn leave_when_alone(bot_channel: Option<u64>, states: &Vec<VoiceMember>) -> (res: bool)
    ensures
        res == match bot_channel {
            Some(ch) => listener_count(states@, ch) == 0,
            None => false,
        },
{
    match bot_channel {
        Some(ch) => count_listeners(states, ch) == 0,
        None => false,
    }
}

/// How many voice states are in `channel` with a user other than `bot`.
pub open spec fn member_count(states: Seq<(Option<u64>, u64)>, channel: u64, bot: u64) -> nat
    decreases states.len(),
{
    if states.len() == 0 {
        0
    } else {
        let m = states.last();
        member_count(states.drop_last(), channel, bot) + if m.0 == Some(channel) && m.1 != bot {
            1nat
        } else {
            0nat
        }
    }
}

/// Counts the users other than the bot in `channel`; each state is a
/// channel and a user id.
pub fn count_members(states: &Vec<(Option<u64>, u64)>, channel: u64, bot: u64) -> (res: usize)
    ensures
        res == member_count(states@, channel, bot),
{
    let n = states.len();
    let mut count: usize = 0;
    let mut i: usize = 0;
    while i < n
        invariant
            n == states@.len(),
            i <= n,
            count == member_count(states@.take(i as int), channel, bot),
            count <= i,
        decreases n - i,
    {
        proof {
            assert(states@.take(i + 1).drop_last() =~= states@.take(i as int));
        }
        let m = states[i];
        let counted = match m.0 {
            Some(c) => c == channel && m.1 != bot,
            None => false,
        };
        if counted {
            count = count + 1;
        }
        i = i + 1;
    }
    proof {
        assert(states@.take(n as int) =~= states@);
    }
    count
}

/// Whether the bot leaves after a command: its queue is empty, or nobody
/// but the bot is in its channel (no channel counts as nobody).
pub fn leave_after_command(
    queue_empty: bool,
    bot_channel: Option<u64>,
    states: &Vec<(Option<u64>, u64)>,
    bot: u64,
) -> (res: bool)
    ensures
        res == (queue_empty || match bot_channel {
            Some(ch) => member_count(states@, ch, bot) == 0,
            None => true,
        }),
{
    let humans = match bot_channel {
        Some(ch) => count_members(states, ch, bot),
        None => 0,
    };
    queue_empty || humans == 0
}

/// A channel with a listener in it is never left by `leave_when_alone`.
pub proof fn lemma_listener_keeps_bot(states: Seq<VoiceMember>, channel: u64, i: int)
    requires
        0 <= i < states.len(),
        states[i].channel == Some(channel),
        states[i].is_bot != Some(true),
    ensures
        listener_count(states, channel) > 0,
    decreases states.len(),
{
    if i < states.len() - 1 {
        lemma_listener_keeps_bot(states.drop_last(), channel, i);
    }
}

} // verus!
