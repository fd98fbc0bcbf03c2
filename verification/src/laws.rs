//! Properties of the protocol that span both sides and several steps.

use vstd::prelude::*;
use crate::client::{client_next, commands_for, ClientEvent, ClientPhase, JoinError, PlayerCommand, Reaction};
use crate::host::{
    authenticates, broadcast_for, event_player, host_next, millis_of, song_fields, song_of_track, HostAction,
    HostEvent, HostPhase, PlaybackState, PlayerEvent,
};
use crate::unicode::lowercase;
use crate::text::{
    contains_seq, decimal, digit_char, digits_value, is_digit, parsed_u64, signed_decimal, unsigned_digits,
};
use crate::types::NetworkMessage;

verus! {

/// The phase and the actions after a host's conversation with one listener
/// has taken the events `evs`, one after the other, from phase `phase`.
pub open spec fn host_run(code: Seq<char>, phase: HostPhase, evs: Seq<HostEvent>) -> (
    HostPhase,
    Seq<HostAction>,
)
    decreases evs.len(),
{
    if evs.len() == 0 {
        (phase, Seq::empty())
    } else {
        let (p1, a1) = host_next(code, phase, evs[0]);
        let (p2, a2) = host_run(code, p1, evs.drop_first());
        (p2, a1 + a2)
    }
}

/// Whether an action sends the listener anything beyond the refusal: a
/// broadcast message, or any reply but `AuthFail`.
pub open spec fn reveals_session(a: HostAction) -> bool {
    match a {
        HostAction::Forward(_) => true,
        HostAction::Reply(m) => m != NetworkMessage::AuthFail,
        _ => false,
    }
}

proof fn lemma_closed_run_is_silent(code: Seq<char>, evs: Seq<HostEvent>)
    ensures
        host_run(code, HostPhase::Closed, evs) == (HostPhase::Closed, Seq::<HostAction>::empty()),
    decreases evs.len(),
{
    if evs.len() > 0 {
        lemma_closed_run_is_silent(code, evs.drop_first());
    }
}

/// A listener that never presents the session code is told nothing but
/// `AuthFail`: whatever happens on its connection, the host never forwards
/// it a broadcast message, never tells it the current song and never
/// accepts it.
pub proof fn law_no_code_no_session(code: Seq<char>, evs: Seq<HostEvent>)
    requires
        forall|i: int|
            0 <= i < evs.len() ==> !(#[trigger] evs[i] matches HostEvent::Hello(h) && authenticates(
                code,
                h,
            )),
    ensures
        forall|j: int|
            0 <= j < host_run(code, HostPhase::AwaitingAuth, evs).1.len() ==> !reveals_session(
                #[trigger] host_run(code, HostPhase::AwaitingAuth, evs).1[j],
            ),
    decreases evs.len(),
{
    if evs.len() > 0 {
        let rest = evs.drop_first();
        assert forall|i: int| 0 <= i < rest.len() implies !(#[trigger] rest[i] matches HostEvent::Hello(
            h,
        ) && authenticates(code, h)) by {
            assert(rest[i] == evs[i + 1]);
        }
        let (p1, a1) = host_next(code, HostPhase::AwaitingAuth, evs[0]);
        if p1 == HostPhase::Closed {
            lemma_closed_run_is_silent(code, rest);
        } else {
            law_no_code_no_session(code, rest);
        }
        let whole = host_run(code, HostPhase::AwaitingAuth, evs).1;
        assert(whole == a1 + host_run(code, p1, rest).1);
        assert forall|j: int| 0 <= j < whole.len() implies !reveals_session(#[trigger] whole[j]) by {
            if j < a1.len() {
                assert(whole[j] == a1[j]);
            } else {
                assert(whole[j] == host_run(code, p1, rest).1[j - a1.len()]);
            }
        }
    }
}

/// The first exchange of a session: the host answers a listener's code, and
/// the listener takes the answer. The listener is in exactly when its code
/// is the session code; otherwise its session ends with
/// `AuthenticationFailed`.
pub proof fn law_handshake(session_code: Seq<char>, hello: NetworkMessage)
    requires
        hello is Auth,
    ensures
        ({
            let (hp, acts) = host_next(session_code, HostPhase::AwaitingAuth, HostEvent::Hello(Some(hello)));
            let reply = acts[0]->Reply_0;
            let (cp, r) = client_next(ClientPhase::AwaitingAuthReply, ClientEvent::Line(Some(reply)));
            &&& acts[0] is Reply
            &&& if hello->Auth_code@ == session_code {
                &&& hp == HostPhase::AwaitingStatus
                &&& cp == ClientPhase::Syncing
                &&& r is Authenticated
            } else {
                &&& hp == HostPhase::Closed
                &&& cp == ClientPhase::Done
                &&& r == Reaction::Finish(Err(JoinError::AuthenticationFailed))
            }
        }),
{
}

/// The reactions after a listener's session has taken the events `evs`, one
/// after the other, from phase `phase`.
pub open spec fn client_run(phase: ClientPhase, evs: Seq<ClientEvent>) -> (ClientPhase, Seq<Reaction>)
    decreases evs.len(),
{
    if evs.len() == 0 {
        (phase, Seq::empty())
    } else {
        let (p1, r1) = client_next(phase, evs[0]);
        let (p2, rs) = client_run(p1, evs.drop_first());
        (p2, seq![r1] + rs)
    }
}

proof fn lemma_done_run_is_idle(evs: Seq<ClientEvent>)
    ensures
        client_run(ClientPhase::Done, evs).0 == ClientPhase::Done,
        forall|j: int|
            0 <= j < client_run(ClientPhase::Done, evs).1.len() ==> #[trigger] client_run(
                ClientPhase::Done,
                evs,
            ).1[j] is Idle,
    decreases evs.len(),
{
    if evs.len() > 0 {
        lemma_done_run_is_idle(evs.drop_first());
        let rs = client_run(ClientPhase::Done, evs).1;
        let tail = client_run(ClientPhase::Done, evs.drop_first()).1;
        assert forall|j: int| 0 <= j < rs.len() implies #[trigger] rs[j] is Idle by {
            if j > 0 {
                assert(rs[j] == tail[j - 1]);
            }
        }
    }
}

/// A listener acts on nothing the host sends unless the host's first answer
/// accepted its code: after any other first answer the session ends with an
/// error and every later line is ignored.
pub proof fn law_no_commands_before_acceptance(evs: Seq<ClientEvent>)
    requires
        evs.len() > 0,
        evs[0] != ClientEvent::Line(Some(NetworkMessage::AuthOk)),
    ensures
        client_run(ClientPhase::AwaitingAuthReply, evs).1[0] matches Reaction::Finish(Err(_)),
        forall|j: int|
            1 <= j < client_run(ClientPhase::AwaitingAuthReply, evs).1.len() ==> #[trigger] client_run(
                ClientPhase::AwaitingAuthReply,
                evs,
            ).1[j] is Idle,
{
    lemma_done_run_is_idle(evs.drop_first());
    let rs = client_run(ClientPhase::AwaitingAuthReply, evs).1;
    let tail = client_run(ClientPhase::Done, evs.drop_first()).1;
    assert forall|j: int| 1 <= j < rs.len() implies #[trigger] rs[j] is Idle by {
        assert(rs[j] == tail[j - 1]);
    }
}

proof fn lemma_digit_char_value(d: nat)
    requires
        d < 10,
    ensures
        is_digit(digit_char(d)),
        (digit_char(d) as nat) - ('0' as nat) == d,
{
    assert(('0' as u32) == 48);
}

proof fn lemma_decimal_digits(n: nat)
    ensures
        decimal(n).len() > 0,
        forall|i: int| 0 <= i < decimal(n).len() ==> is_digit(#[trigger] decimal(n)[i]),
        digits_value(decimal(n)) == n,
    decreases n,
{
    if n < 10 {
        lemma_digit_char_value(n);
        assert(decimal(n).drop_last() =~= Seq::<char>::empty());
        assert(digits_value(decimal(n).drop_last()) == 0);
        assert(decimal(n).last() == digit_char(n));
    } else {
        lemma_decimal_digits(n / 10);
        lemma_digit_char_value(n % 10);
        let s = decimal(n);
        assert(s.drop_last() =~= decimal(n / 10));
        assert(s.last() == digit_char(n % 10));
        assert(digits_value(s) == digits_value(decimal(n / 10)) * 10 + (n % 10));
        assert((n / 10) * 10 + (n % 10) == n);
        assert forall|i: int| 0 <= i < s.len() implies is_digit(#[trigger] s[i]) by {
            if i < s.len() - 1 {
                assert(s[i] == decimal(n / 10)[i]);
            }
        }
    }
}

/// Reading back a rendered number gives the number: `n.to_string().parse()`
/// is `Ok(n)` for every `u64`.
pub proof fn law_decimal_round_trip(n: u64)
    ensures
        parsed_u64(decimal(n as nat)) == Some(n),
{
    lemma_decimal_digits(n as nat);
    let s = decimal(n as nat);
    assert(is_digit(s[0]));
    assert(unsigned_digits(s) == s);
}

/// The host's playback reaches every listener: what the host broadcasts for
/// an event of the player it follows makes each listener's player do the
/// same thing. A new track is played, a pause or resume toggles play/pause,
/// and a seek goes to the same millisecond (when that fits in a `u64`).
pub proof fn law_host_event_reaches_listener(ev: PlayerEvent, target: Seq<char>, m: Option<NetworkMessage>)
    requires
        broadcast_for(ev, target, m),
        event_player(ev) matches Some(name) && contains_seq(lowercase(name), target),
        ev matches PlayerEvent::PositionChanged { secs, nanos, .. } ==> millis_of(secs, nanos)
            <= u64::MAX,
    ensures
        match ev {
            PlayerEvent::TrackChanged { track, .. } => {
                &&& commands_for(m.unwrap()).len() == 1
                &&& commands_for(m.unwrap())[0] matches PlayerCommand::Play(s) && song_fields(s)
                    == song_of_track(track)
            },
            PlayerEvent::StateChanged { state, .. } => state != PlaybackState::Stopped
                ==> commands_for(m.unwrap()) == seq![PlayerCommand::PlayPause],
            PlayerEvent::PositionChanged { secs, nanos, .. } => commands_for(m.unwrap()) == seq![
                PlayerCommand::Seek(millis_of(secs, nanos) as u64),
            ],
            PlayerEvent::Other => m is None,
        },
{
    if let PlayerEvent::PositionChanged { secs, nanos, .. } = ev {
        law_decimal_round_trip(millis_of(secs, nanos) as u64);
    }
}

/// The messages forwarded for a run of events: one per broadcast, in order.
pub open spec fn forwards_of(evs: Seq<HostEvent>) -> Seq<HostAction>
    decreases evs.len(),
{
    if evs.len() == 0 {
        Seq::empty()
    } else {
        let rest = forwards_of(evs.drop_first());
        match evs[0] {
            HostEvent::Broadcast(m) => seq![HostAction::Forward(m)] + rest,
            _ => rest,
        }
    }
}

/// An accepted listener is passed every message the host broadcasts, in the
/// order of broadcasting, and nothing else; falling behind drops nothing
/// more than the channel already dropped.
pub proof fn law_forwards_every_broadcast(code: Seq<char>, evs: Seq<HostEvent>)
    requires
        forall|i: int|
            0 <= i < evs.len() ==> (#[trigger] evs[i] is Broadcast || evs[i] is Lagged),
    ensures
        host_run(code, HostPhase::Forwarding, evs) == (HostPhase::Forwarding, forwards_of(evs)),
    decreases evs.len(),
{
    if evs.len() > 0 {
        let rest = evs.drop_first();
        assert forall|i: int| 0 <= i < rest.len() implies (#[trigger] rest[i] is Broadcast
            || rest[i] is Lagged) by {
            assert(rest[i] == evs[i + 1]);
        }
        law_forwards_every_broadcast(code, rest);
        assert(evs[0] is Broadcast || evs[0] is Lagged);
        if let HostEvent::Broadcast(m) = evs[0] {
            assert(host_next(code, HostPhase::Forwarding, evs[0]).1 =~= seq![HostAction::Forward(m)]);
        } else {
            assert(host_next(code, HostPhase::Forwarding, evs[0]).1 =~= Seq::<HostAction>::empty());
        }
    }
}

/// What an accepted listener does about a run of messages from the host:
/// the commands of each, in order.
pub open spec fn applied(ms: Seq<NetworkMessage>) -> Seq<Reaction>
    decreases ms.len(),
{
    if ms.len() == 0 {
        Seq::empty()
    } else {
        seq![Reaction::Apply(commands_for(ms[0]))] + applied(ms.drop_first())
    }
}

/// An accepted listener acts on every message the host sends, in order, and
/// stays in the session.
pub proof fn law_listener_follows_every_message(ms: Seq<NetworkMessage>)
    ensures
        client_run(ClientPhase::Syncing, ms.map_values(|m: NetworkMessage| ClientEvent::Line(Some(m))))
            == (ClientPhase::Syncing, applied(ms)),
    decreases ms.len(),
{
    let evs = ms.map_values(|m: NetworkMessage| ClientEvent::Line(Some(m)));
    if ms.len() > 0 {
        law_listener_follows_every_message(ms.drop_first());
        assert(evs.drop_first() =~= ms.drop_first().map_values(
            |m: NetworkMessage| ClientEvent::Line(Some(m)),
        ));
        assert(evs[0] == ClientEvent::Line(Some(ms[0])));
    }
}

/// A Spotify song's progress in milliseconds becomes its position: the
/// rendered progress reads back as the same number when it is not
/// negative, and as no number (so position 0) when it is.
pub proof fn law_progress_reads_back(progress: i64)
    ensures
        parsed_u64(signed_decimal(progress as int)) == if progress >= 0 {
            Some(progress as u64)
        } else {
            None::<u64>
        },
{
    if progress >= 0 {
        law_decimal_round_trip(progress as u64);
    } else {
        let s = signed_decimal(progress as int);
        assert(s[0] == '-');
        assert(unsigned_digits(s) == s);
        assert(!is_digit(s[0]));
    }
}

} // verus!
