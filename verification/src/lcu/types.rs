//! The client's gameflow phases, queue categories and ready-check state.
use crate::text;
use vstd::prelude::*;

verus! {

/// A phase of the client's gameflow, as the client names it.
#[derive(Debug, Clone, Copy, PartialEq, Eq, Structural)]
pub enum GameflowPhase {
    /// The phase the client names `None`: no lobby, queue or game.
    NoPhase,
    Lobby,
    Matchmaking,
    CheckedIntoTournament,
    ReadyCheck,
    ChampSelect,
    GameStart,
    FailedToLaunch,
    InProgress,
    Reconnect,
    WaitingForStats,
    PreEndOfGame,
    EndOfGame,
    TerminatedInError,
    /// Any name the client may send that is not one of the above.
    Unknown,
}

/// The phase that a name denotes; `Unknown` for any other text.
pub open spec fn phase_of_text(s: Seq<char>) -> GameflowPhase {
    if s == "None"@ {
        GameflowPhase::NoPhase
    } else if s == "Lobby"@ {
        GameflowPhase::Lobby
    } else if s == "Matchmaking"@ {
        GameflowPhase::Matchmaking
    } else if s == "CheckedIntoTournament"@ {
        GameflowPhase::CheckedIntoTournament
    } else if s == "ReadyCheck"@ {
        GameflowPhase::ReadyCheck
    } else if s == "ChampSelect"@ {
        GameflowPhase::ChampSelect
    } else if s == "GameStart"@ {
        GameflowPhase::GameStart
    } else if s == "FailedToLaunch"@ {
        GameflowPhase::FailedToLaunch
    } else if s == "InProgress"@ {
        GameflowPhase::InProgress
    } else if s == "Reconnect"@ {
        GameflowPhase::Reconnect
    } else if s == "WaitingForStats"@ {
        GameflowPhase::WaitingForStats
    } else if s == "PreEndOfGame"@ {
        GameflowPhase::PreEndOfGame
    } else if s == "EndOfGame"@ {
        GameflowPhase::EndOfGame
    } else if s == "TerminatedInError"@ {
        GameflowPhase::TerminatedInError
    } else {
        GameflowPhase::Unknown
    }
}

/// The name under which the client sends a phase: the variant's name, `None` for
/// `NoPhase`.
pub open spec fn phase_name(p: GameflowPhase) -> Seq<char> {
    match p {
        GameflowPhase::NoPhase => "None"@,
        GameflowPhase::Lobby => "Lobby"@,
        GameflowPhase::Matchmaking => "Matchmaking"@,
        GameflowPhase::CheckedIntoTournament => "CheckedIntoTournament"@,
        GameflowPhase::ReadyCheck => "ReadyCheck"@,
        GameflowPhase::ChampSelect => "ChampSelect"@,
        GameflowPhase::GameStart => "GameStart"@,
        GameflowPhase::FailedToLaunch => "FailedToLaunch"@,
        GameflowPhase::InProgress => "InProgress"@,
        GameflowPhase::Reconnect => "Reconnect"@,
        GameflowPhase::WaitingForStats => "WaitingForStats"@,
        GameflowPhase::PreEndOfGame => "PreEndOfGame"@,
        GameflowPhase::EndOfGame => "EndOfGame"@,
        GameflowPhase::TerminatedInError => "TerminatedInError"@,
        GameflowPhase::Unknown => "Unknown"@,
    }
}

impl GameflowPhase {
    /// The phase that the client's name for it denotes.
    pub fn from_str(value: &str) -> (r: Self)
        ensures
            r == phase_of_text(value@),
    {
        if text::str_eq(value, "None") {
            Self::NoPhase
        } else if text::str_eq(value, "Lobby") {
            Self::Lobby
        } else if text::str_eq(value, "Matchmaking") {
            Self::Matchmaking
        } else if text::str_eq(value, "CheckedIntoTournament") {
            Self::CheckedIntoTournament
        } else if text::str_eq(value, "ReadyCheck") {
            Self::ReadyCheck
        } else if text::str_eq(value, "ChampSelect") {
            Self::ChampSelect
        } else if text::str_eq(value, "GameStart") {
            Self::GameStart
        } else if text::str_eq(value, "FailedToLaunch") {
            Self::FailedToLaunch
        } else if text::str_eq(value, "InProgress") {
            Self::InProgress
        } else if text::str_eq(value, "Reconnect") {
            Self::Reconnect
        } else if text::str_eq(value, "WaitingForStats") {
            Self::WaitingForStats
        } else if text::str_eq(value, "PreEndOfGame") {
            Self::PreEndOfGame
        } else if text::str_eq(value, "EndOfGame") {
            Self::EndOfGame
        } else if text::str_eq(value, "TerminatedInError") {
            Self::TerminatedInError
        } else {
            Self::Unknown
        }
    }

    /// Whether the player is waiting in a matchmaking queue.
    pub fn is_in_queue(self) -> (r: bool)
        ensures
            r == (self == GameflowPhase::Matchmaking),
    {
        match self {
            Self::Matchmaking => true,
            _ => false,
        }
    }
}

/// The lengths of the phase names, and the first characters that tell apart the names
/// of equal length.
proof fn lemma_phase_name_facts()
    ensures
        "None"@.len() == 4,
        "Lobby"@.len() == 5,
        "Matchmaking"@.len() == 11,
        "CheckedIntoTournament"@.len() == 21,
        "ReadyCheck"@.len() == 10,
        "ChampSelect"@.len() == 11,
        "GameStart"@.len() == 9,
        "FailedToLaunch"@.len() == 14,
        "InProgress"@.len() == 10,
        "Reconnect"@.len() == 9,
        "WaitingForStats"@.len() == 15,
        "PreEndOfGame"@.len() == 12,
        "EndOfGame"@.len() == 9,
        "TerminatedInError"@.len() == 17,
        "GameStart"@[0] != "Reconnect"@[0],
        "GameStart"@[0] != "EndOfGame"@[0],
        "Reconnect"@[0] != "EndOfGame"@[0],
        "ReadyCheck"@[0] != "InProgress"@[0],
        "Matchmaking"@[0] != "ChampSelect"@[0],
{
    reveal_strlit("None");
    reveal_strlit("Lobby");
    reveal_strlit("Matchmaking");
    reveal_strlit("CheckedIntoTournament");
    reveal_strlit("ReadyCheck");
    reveal_strlit("ChampSelect");
    reveal_strlit("GameStart");
    reveal_strlit("FailedToLaunch");
    reveal_strlit("InProgress");
    reveal_strlit("Reconnect");
    reveal_strlit("WaitingForStats");
    reveal_strlit("PreEndOfGame");
    reveal_strlit("EndOfGame");
    reveal_strlit("TerminatedInError");
}

/// Reading back the name of any named phase gives the phase.
pub proof fn lemma_phase_name_round_trip(p: GameflowPhase)
    requires
        p != GameflowPhase::Unknown,
    ensures
        phase_of_text(phase_name(p)) == p,
{
    lemma_phase_name_facts();
}

/// The ready-check state that the client reports.
#[derive(Debug, Clone, PartialEq)]
pub struct ReadyCheckState {
    pub state: String,
    pub player_response: String,
}

impl ReadyCheckState {
    /// A ready check can be accepted while it is in progress and the player has not
    /// answered it.
    pub open spec fn ready_spec(state: Seq<char>, player_response: Seq<char>) -> bool {
        state == "InProgress"@ && player_response == "None"@
    }

    /// Whether this ready check can be accepted now.
    pub fn is_ready_to_accept(&self) -> (r: bool)
        ensures
            r == Self::ready_spec(self.state@, self.player_response@),
    {
        text::str_eq(self.state.as_str(), "InProgress") && text::str_eq(
            self.player_response.as_str(),
            "None",
        )
    }
}

/// A coarse category of queue.
#[derive(Debug, Clone, Copy, PartialEq, Eq, Structural)]
pub enum QueueType {
    LeagueOfLegends,
    Tft,
    Aram,
    Unknown,
}

/// The category of a queue by its id.
pub open spec fn queue_type_of(id: i64) -> QueueType {
    match id {
        1090 | 1100 | 1110 | 1111 | 1130 | 1150 | 1160 | 1170 | 1180 | 1190 => QueueType::Tft,
        450 | 100 => QueueType::Aram,
        400 | 420 | 430 | 440 | 480 | 700 | 830 | 840 | 850 | 1020 | 1300 | 1400 => {
            QueueType::LeagueOfLegends
        },
        _ => QueueType::Unknown,
    }
}

impl QueueType {
    /// Maps a queue id to its category: Teamfight Tactics, ARAM, the other League modes
    /// listed, and `Unknown` for every other id.
    pub fn from_queue_id(id: i64) -> (r: Self)
        ensures
            r == queue_type_of(id),
    {
        match id {
            1090 | 1100 | 1110 | 1111 | 1130 | 1150 | 1160 | 1170 | 1180 | 1190 => Self::Tft,
            450 | 100 => Self::Aram,
            400 | 420 | 430 | 440 | 480 | 700 | 830 | 840 | 850 | 1020 | 1300 | 1400 => {
                Self::LeagueOfLegends
            },
            _ => Self::Unknown,
        }
    }
}

} // verus!

verus! {

/// The ids of the Teamfight Tactics queues.
pub open spec fn tft_queue_ids() -> Set<i64> {
    set![1090i64, 1100, 1110, 1111, 1130, 1150, 1160, 1170, 1180, 1190]
}

/// The ids of the ARAM queues.
pub open spec fn aram_queue_ids() -> Set<i64> {
    set![450i64, 100]
}

/// The ids of the other League of Legends queues that are told apart.
pub open spec fn league_queue_ids() -> Set<i64> {
    set![400i64, 420, 430, 440, 480, 700, 830, 840, 850, 1020, 1300, 1400]
}

/// Each category holds exactly its listed ids, and every id outside the three lists
/// (new queues, Arena, Quickplay, negative ids) is `Unknown`.
pub proof fn lemma_queue_categories(id: i64)
    ensures
        queue_type_of(id) == QueueType::Tft <==> tft_queue_ids().contains(id),
        queue_type_of(id) == QueueType::Aram <==> aram_queue_ids().contains(id),
        queue_type_of(id) == QueueType::LeagueOfLegends <==> league_queue_ids().contains(id),
        queue_type_of(id) == QueueType::Unknown <==> !tft_queue_ids().contains(id)
            && !aram_queue_ids().contains(id) && !league_queue_ids().contains(id),
{
}

/// The phase that a text denotes is named by exactly that text: no other text (another
/// spelling or case, extra characters) is read as a known phase.
pub proof fn lemma_known_phase_has_exact_name(s: Seq<char>)
    requires
        phase_of_text(s) != GameflowPhase::Unknown,
    ensures
        s == phase_name(phase_of_text(s)),
{
}

/// A ready check is accepted exactly when it is in progress and unanswered.
pub proof fn lemma_ready_exactly_when_open(state: Seq<char>, player_response: Seq<char>)
    ensures
        ReadyCheckState::ready_spec(state, player_response) <==> (state == "InProgress"@
            && player_response == "None"@),
{
}

} // verus!
