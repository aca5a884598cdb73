//! Decoding the text that a status query returns into a [`Status`] record.
//!
//! The text is `&`-separated `key=value` pairs. Each recognised key sets one field by that
//! field's rule; unknown keys are skipped; the first value that fails its parse ends the decode
//! with an error naming the key and the value.
use vstd::prelude::*;

use crate::error::{EnumKind, Error, ErrorView, ValueKind};
use crate::text::{
    chars_of, find_char, index_of, parse_u32, plus_as_space, replace_char,
    text_eq, u32_of,
};
use crate::topic::Response;

verus! {

/// Stage of the round, sent as `0` to `4`.
#[derive(PartialEq, Eq, Structural, Clone, Copy, Debug)]
pub enum GameState {
    Startup,
    Pregame,
    SettingUp,
    Playing,
    Finished,
}

/// Station alert level, sent by its lowercase name.
#[derive(PartialEq, Eq, Structural, Clone, Copy, Debug)]
pub enum SecurityLevel {
    Green,
    Blue,
    Red,
    Delta,
}

/// State of the evacuation shuttle, sent by its lowercase name.
#[derive(PartialEq, Eq, Structural, Clone, Copy, Debug)]
pub enum ShuttleMode {
    Idle,
    Igniting,
    Recallled,
    Called,
    Docked,
    Stranded,
    Disabled,
    Escape,
    /// Sent as `endgame%3a+game+over`, still percent-encoded.
    Endgame,
    Recharging,
    Landing,
}

/// The round stage that a status value names.
pub open spec fn game_state_of(v: Seq<char>) -> Option<GameState> {
    if v == "0"@ {
        Some(GameState::Startup)
    } else if v == "1"@ {
        Some(GameState::Pregame)
    } else if v == "2"@ {
        Some(GameState::SettingUp)
    } else if v == "3"@ {
        Some(GameState::Playing)
    } else if v == "4"@ {
        Some(GameState::Finished)
    } else {
        None
    }
}

/// The alert level that a status value names.
pub open spec fn security_level_of(v: Seq<char>) -> Option<SecurityLevel> {
    if v == "green"@ {
        Some(SecurityLevel::Green)
    } else if v == "blue"@ {
        Some(SecurityLevel::Blue)
    } else if v == "red"@ {
        Some(SecurityLevel::Red)
    } else if v == "delta"@ {
        Some(SecurityLevel::Delta)
    } else {
        None
    }
}

/// The shuttle state that a status value names.
pub open spec fn shuttle_mode_of(v: Seq<char>) -> Option<ShuttleMode> {
    if v == "idle"@ {
        Some(ShuttleMode::Idle)
    } else if v == "igniting"@ {
        Some(ShuttleMode::Igniting)
    } else if v == "recallled"@ {
        Some(ShuttleMode::Recallled)
    } else if v == "called"@ {
        Some(ShuttleMode::Called)
    } else if v == "docked"@ {
        Some(ShuttleMode::Docked)
    } else if v == "stranded"@ {
        Some(ShuttleMode::Stranded)
    } else if v == "disabled"@ {
        Some(ShuttleMode::Disabled)
    } else if v == "escape"@ {
        Some(ShuttleMode::Escape)
    } else if v == "endgame%3a+game+over"@ {
        Some(ShuttleMode::Endgame)
    } else if v == "recharging"@ {
        Some(ShuttleMode::Recharging)
    } else if v == "landing"@ {
        Some(ShuttleMode::Landing)
    } else {
        None
    }
}

impl GameState {
    /// Reads a round stage; anything but `0` to `4` is an enum conversion error.
    pub fn from_str(s: &str) -> (r: Result<GameState, Error>)
        ensures
            match game_state_of(s@) {
                Some(g) => r == Ok::<GameState, Error>(g),
                None => r matches Err(e) && e@ == ErrorView::EnumConversionFailed(
                    EnumKind::GameState,
                    s@,
                ),
            },
    {
        if text_eq(s, "0") {
            Ok(GameState::Startup)
        } else if text_eq(s, "1") {
            Ok(GameState::Pregame)
        } else if text_eq(s, "2") {
            Ok(GameState::SettingUp)
        } else if text_eq(s, "3") {
            Ok(GameState::Playing)
        } else if text_eq(s, "4") {
            Ok(GameState::Finished)
        } else {
            Err(Error::EnumConversionFailed(EnumKind::GameState, s.to_owned()))
        }
    }
}

impl SecurityLevel {
    /// Reads an alert level by its lowercase name; anything else is an enum conversion error.
    pub fn from_str(s: &str) -> (r: Result<SecurityLevel, Error>)
        ensures
            match security_level_of(s@) {
                Some(l) => r == Ok::<SecurityLevel, Error>(l),
                None => r matches Err(e) && e@ == ErrorView::EnumConversionFailed(
                    EnumKind::SecurityLevel,
                    s@,
                ),
            },
    {
        if text_eq(s, "green") {
            Ok(SecurityLevel::Green)
        } else if text_eq(s, "blue") {
            Ok(SecurityLevel::Blue)
        } else if text_eq(s, "red") {
            Ok(SecurityLevel::Red)
        } else if text_eq(s, "delta") {
            Ok(SecurityLevel::Delta)
        } else {
            Err(Error::EnumConversionFailed(EnumKind::SecurityLevel, s.to_owned()))
        }
    }
}

impl ShuttleMode {
    /// Reads a shuttle state by its lowercase name, the end-game state by its percent-encoded
    /// form; anything else is an enum conversion error.
    pub fn from_str(s: &str) -> (r: Result<ShuttleMode, Error>)
        ensures
            match shuttle_mode_of(s@) {
                Some(m) => r == Ok::<ShuttleMode, Error>(m),
                None => r matches Err(e) && e@ == ErrorView::EnumConversionFailed(
                    EnumKind::ShuttleMode,
                    s@,
                ),
            },
    {
        if text_eq(s, "idle") {
            Ok(ShuttleMode::Idle)
        } else if text_eq(s, "igniting") {
            Ok(ShuttleMode::Igniting)
        } else if text_eq(s, "recallled") {
            Ok(ShuttleMode::Recallled)
        } else if text_eq(s, "called") {
            Ok(ShuttleMode::Called)
        } else if text_eq(s, "docked") {
            Ok(ShuttleMode::Docked)
        } else if text_eq(s, "stranded") {
            Ok(ShuttleMode::Stranded)
        } else if text_eq(s, "disabled") {
            Ok(ShuttleMode::Disabled)
        } else if text_eq(s, "escape") {
            Ok(ShuttleMode::Escape)
        } else if text_eq(s, "endgame%3a+game+over") {
            Ok(ShuttleMode::Endgame)
        } else if text_eq(s, "recharging") {
            Ok(ShuttleMode::Recharging)
        } else if text_eq(s, "landing") {
            Ok(ShuttleMode::Landing)
        } else {
            Err(Error::EnumConversionFailed(EnumKind::ShuttleMode, s.to_owned()))
        }
    }
}

/// The view of an optional text.
pub open spec fn opt_view(o: &Option<String>) -> Option<Seq<char>> {
    match o {
        Some(s) => Some(s@),
        None => None,
    }
}

/// Parses a counter; failure names the key and the value.
fn integer_field(key: &str, value: &str) -> (r: Result<u32, Error>)
    ensures
        match u32_of(value@) {
            Some(n) => r == Ok::<u32, Error>(n),
            None => r matches Err(e) && e@ == ErrorView::FieldParseFailed(
                key@,
                value@,
                ValueKind::Integer,
            ),
        },
{
    match parse_u32(value) {
        Some(n) => Ok(n),
        None => Err(Error::FieldParseFailed(key.to_owned(), value.to_owned(), ValueKind::Integer)),
    }
}

/// A server's status, as its status query reports it.
#[derive(PartialEq, Eq, Debug)]
pub struct Status {
    /// Game version.
    pub version: String,
    /// Whether respawning is allowed.
    pub respawn: bool,
    /// Whether players may join.
    pub enter: bool,
    /// Whether the AI role is enabled.
    pub ai: bool,
    /// Host name.
    pub host: String,
    /// Current round number.
    pub round_id: u32,
    /// Connected players.
    pub players: u32,
    /// Code revision.
    pub revision: String,
    /// Date of the code revision.
    pub revision_data: String,
    /// Whether the server is listed on the hub.
    pub hub: bool,
    /// Whether the server sends its identifier.
    pub identifier: bool,
    /// Administrators online.
    pub admins: u32,
    /// Stage of the round.
    pub gamestate: GameState,
    /// Map name, `+` read as a space.
    pub map_name: String,
    /// Station alert level.
    pub security_level: SecurityLevel,
    /// Seconds since the round started.
    pub round_duration: u32,
    /// Current time dilation, as sent; `None` when absent.
    pub time_dilation_current: Option<String>,
    /// Average time dilation, as sent; `None` when absent.
    pub time_dilation_avg: Option<String>,
    /// Slow average of time dilation, as sent; `None` when absent.
    pub time_dilation_avg_slow: Option<String>,
    /// Fast average of time dilation, as sent; `None` when absent.
    pub time_dilation_avg_fast: Option<String>,
    /// Soft population cap.
    pub soft_popcap: u32,
    /// Hard population cap.
    pub hard_popcap: u32,
    /// Extreme population cap.
    pub extreme_popcap: u32,
    /// Whether a population cap is in force.
    pub popcap: bool,
    /// Whether new players are turned away.
    pub bunkered: bool,
    /// Whether interviews are required.
    pub interviews: bool,
    /// State of the evacuation shuttle.
    pub shuttle_mode: ShuttleMode,
    /// Seconds on the shuttle's timer.
    pub shuttle_timer: u32,
    /// Address players connect to.
    pub public_address: String,
}

/// The mathematical form of a [`Status`].
pub struct StatusView {
    pub version: Seq<char>,
    pub respawn: bool,
    pub enter: bool,
    pub ai: bool,
    pub host: Seq<char>,
    pub round_id: u32,
    pub players: u32,
    pub revision: Seq<char>,
    pub revision_data: Seq<char>,
    pub hub: bool,
    pub identifier: bool,
    pub admins: u32,
    pub gamestate: GameState,
    pub map_name: Seq<char>,
    pub security_level: SecurityLevel,
    pub round_duration: u32,
    pub time_dilation_current: Option<Seq<char>>,
    pub time_dilation_avg: Option<Seq<char>>,
    pub time_dilation_avg_slow: Option<Seq<char>>,
    pub time_dilation_avg_fast: Option<Seq<char>>,
    pub soft_popcap: u32,
    pub hard_popcap: u32,
    pub extreme_popcap: u32,
    pub popcap: bool,
    pub bunkered: bool,
    pub interviews: bool,
    pub shuttle_mode: ShuttleMode,
    pub shuttle_timer: u32,
    pub public_address: Seq<char>,
}

impl View for Status {
    type V = StatusView;

    open spec fn view(&self) -> StatusView {
        StatusView {
            version: self.version@,
            respawn: self.respawn,
            enter: self.enter,
            ai: self.ai,
            host: self.host@,
            round_id: self.round_id,
            players: self.players,
            revision: self.revision@,
            revision_data: self.revision_data@,
            hub: self.hub,
            identifier: self.identifier,
            admins: self.admins,
            gamestate: self.gamestate,
            map_name: self.map_name@,
            security_level: self.security_level,
            round_duration: self.round_duration,
            time_dilation_current: opt_view(&self.time_dilation_current),
            time_dilation_avg: opt_view(&self.time_dilation_avg),
            time_dilation_avg_slow: opt_view(&self.time_dilation_avg_slow),
            time_dilation_avg_fast: opt_view(&self.time_dilation_avg_fast),
            soft_popcap: self.soft_popcap,
            hard_popcap: self.hard_popcap,
            extreme_popcap: self.extreme_popcap,
            popcap: self.popcap,
            bunkered: self.bunkered,
            interviews: self.interviews,
            shuttle_mode: self.shuttle_mode,
            shuttle_timer: self.shuttle_timer,
            public_address: self.public_address@,
        }
    }
}

impl StatusView {
    /// Every field at its zero value: empty text, `false`, `0`, absent, or the first variant.
    pub open spec fn initial() -> StatusView {
        StatusView {
            version: Seq::empty(),
            respawn: false,
            enter: false,
            ai: false,
            host: Seq::empty(),
            round_id: 0,
            players: 0,
            revision: Seq::empty(),
            revision_data: Seq::empty(),
            hub: false,
            identifier: false,
            admins: 0,
            gamestate: GameState::Startup,
            map_name: Seq::empty(),
            security_level: SecurityLevel::Green,
            round_duration: 0,
            time_dilation_current: None,
            time_dilation_avg: None,
            time_dilation_avg_slow: None,
            time_dilation_avg_fast: None,
            soft_popcap: 0,
            hard_popcap: 0,
            extreme_popcap: 0,
            popcap: false,
            bunkered: false,
            interviews: false,
            shuttle_mode: ShuttleMode::Idle,
            shuttle_timer: 0,
            public_address: Seq::empty(),
        }
    }
}

/// The record after one `key=value` pair: a recognised key sets its field by the field's rule,
/// an unknown key changes nothing.
pub open spec fn with_field(
    st: StatusView,
    key: Seq<char>,
    value: Seq<char>,
) -> Result<StatusView, ErrorView> {
    if key == "version"@ {
        Ok(StatusView { version: value, ..st })
    } else if key == "respawn"@ {
        Ok(StatusView { respawn: value == "1"@, ..st })
    } else if key == "enter"@ {
        Ok(StatusView { enter: value == "1"@, ..st })
    } else if key == "ai"@ {
        Ok(StatusView { ai: value == "1"@, ..st })
    } else if key == "host"@ {
        Ok(StatusView { host: value, ..st })
    } else if key == "round_id"@ {
        match u32_of(value) {
            Some(n) => Ok(StatusView { round_id: n, ..st }),
            None => Err(ErrorView::FieldParseFailed(key, value, ValueKind::Integer)),
        }
    } else if key == "players"@ {
        match u32_of(value) {
            Some(n) => Ok(StatusView { players: n, ..st }),
            None => Err(ErrorView::FieldParseFailed(key, value, ValueKind::Integer)),
        }
    } else if key == "revision"@ {
        Ok(StatusView { revision: value, ..st })
    } else {
        with_field_2(st, key, value)
    }
}

/// [`with_field`] for the keys that it does not recognise.
pub open spec fn with_field_2(
    st: StatusView,
    key: Seq<char>,
    value: Seq<char>,
) -> Result<StatusView, ErrorView> {
    if key == "revision_date"@ {
        Ok(StatusView { revision_data: value, ..st })
    } else if key == "hub"@ {
        Ok(StatusView { hub: value == "1"@, ..st })
    } else if key == "identifier"@ {
        Ok(StatusView { identifier: value == "1"@, ..st })
    } else if key == "admins"@ {
        match u32_of(value) {
            Some(n) => Ok(StatusView { admins: n, ..st }),
            None => Err(ErrorView::FieldParseFailed(key, value, ValueKind::Integer)),
        }
    } else if key == "gamestate"@ {
        match game_state_of(value) {
            Some(x) => Ok(StatusView { gamestate: x, ..st }),
            None => Err(ErrorView::EnumConversionFailed(EnumKind::GameState, value)),
        }
    } else if key == "map_name"@ {
        Ok(StatusView { map_name: plus_as_space(value), ..st })
    } else if key == "security_level"@ {
        match security_level_of(value) {
            Some(x) => Ok(StatusView { security_level: x, ..st }),
            None => Err(ErrorView::EnumConversionFailed(EnumKind::SecurityLevel, value)),
        }
    } else {
        with_field_3(st, key, value)
    }
}

/// [`with_field_2`] for the keys that it does not recognise.
pub open spec fn with_field_3(
    st: StatusView,
    key: Seq<char>,
    value: Seq<char>,
) -> Result<StatusView, ErrorView> {
    if key == "round_duration"@ {
        match u32_of(value) {
            Some(n) => Ok(StatusView { round_duration: n, ..st }),
            None => Err(ErrorView::FieldParseFailed(key, value, ValueKind::Integer)),
        }
    } else if key == "time_dilation_current"@ {
        Ok(StatusView { time_dilation_current: Some(value), ..st })
    } else if key == "time_dilation_avg"@ {
        Ok(StatusView { time_dilation_avg: Some(value), ..st })
    } else if key == "time_dilation_avg_slow"@ {
        Ok(StatusView { time_dilation_avg_slow: Some(value), ..st })
    } else if key == "time_dilation_avg_fast"@ {
        Ok(StatusView { time_dilation_avg_fast: Some(value), ..st })
    } else if key == "soft_popcap"@ {
        match u32_of(value) {
            Some(n) => Ok(StatusView { soft_popcap: n, ..st }),
            None => Err(ErrorView::FieldParseFailed(key, value, ValueKind::Integer)),
        }
    } else if key == "hard_popcap"@ {
        match u32_of(value) {
            Some(n) => Ok(StatusView { hard_popcap: n, ..st }),
            None => Err(ErrorView::FieldParseFailed(key, value, ValueKind::Integer)),
        }
    } else {
        with_field_4(st, key, value)
    }
}

/// [`with_field_3`] for the keys that it does not recognise.
pub open spec fn with_field_4(
    st: StatusView,
    key: Seq<char>,
    value: Seq<char>,
) -> Result<StatusView, ErrorView> {
    if key == "extreme_popcap"@ {
        match u32_of(value) {
            Some(n) => Ok(StatusView { extreme_popcap: n, ..st }),
            None => Err(ErrorView::FieldParseFailed(key, value, ValueKind::Integer)),
        }
    } else if key == "popcap"@ {
        Ok(StatusView { popcap: value == "1"@, ..st })
    } else if key == "bunkered"@ {
        Ok(StatusView { bunkered: value == "1"@, ..st })
    } else if key == "interviews"@ {
        Ok(StatusView { interviews: value == "1"@, ..st })
    } else if key == "shuttle_mode"@ {
        match shuttle_mode_of(value) {
            Some(x) => Ok(StatusView { shuttle_mode: x, ..st }),
            None => Err(ErrorView::EnumConversionFailed(EnumKind::ShuttleMode, value)),
        }
    } else if key == "shuttle_timer"@ {
        match u32_of(value) {
            Some(n) => Ok(StatusView { shuttle_timer: n, ..st }),
            None => Err(ErrorView::FieldParseFailed(key, value, ValueKind::Integer)),
        }
    } else if key == "public_address"@ {
        Ok(StatusView { public_address: value, ..st })
    } else {
        Ok(st)
    }
}

impl Status {
    /// A record with every field at its zero value.
    pub fn new() -> (r: Status)
        ensures
            r@ == StatusView::initial(),
    {
        Status {
            version: String::new(),
            respawn: false,
            enter: false,
            ai: false,
            host: String::new(),
            round_id: 0,
            players: 0,
            revision: String::new(),
            revision_data: String::new(),
            hub: false,
            identifier: false,
            admins: 0,
            gamestate: GameState::Startup,
            map_name: String::new(),
            security_level: SecurityLevel::Green,
            round_duration: 0,
            time_dilation_current: None,
            time_dilation_avg: None,
            time_dilation_avg_slow: None,
            time_dilation_avg_fast: None,
            soft_popcap: 0,
            hard_popcap: 0,
            extreme_popcap: 0,
            popcap: false,
            bunkered: false,
            interviews: false,
            shuttle_mode: ShuttleMode::Idle,
            shuttle_timer: 0,
            public_address: String::new(),
        }
    }
}

/// Sets the field that `key` names from `value`, by that field's rule; an unknown key changes
/// nothing.
pub fn set_field(status: &mut Status, key: &str, value: &str) -> (r: Result<(), Error>)
    ensures
        match r {
            Ok(()) => with_field(old(status)@, key@, value@) == Ok::<StatusView, ErrorView>(
                final(status)@,
            ),
            Err(e) => with_field(old(status)@, key@, value@) == Err::<StatusView, ErrorView>(e@),
        },
{
    if text_eq(key, "version") {
        status.version = value.to_owned();
        Ok(())
    } else if text_eq(key, "respawn") {
        status.respawn = text_eq(value, "1");
        Ok(())
    } else if text_eq(key, "enter") {
        status.enter = text_eq(value, "1");
        Ok(())
    } else if text_eq(key, "ai") {
        status.ai = text_eq(value, "1");
        Ok(())
    } else if text_eq(key, "host") {
        status.host = value.to_owned();
        Ok(())
    } else if text_eq(key, "round_id") {
        match integer_field(key, value) {
            Ok(n) => {
                status.round_id = n;
                Ok(())
            },
            Err(e) => Err(e),
        }
    } else if text_eq(key, "players") {
        match integer_field(key, value) {
            Ok(n) => {
                status.players = n;
                Ok(())
            },
            Err(e) => Err(e),
        }
    } else if text_eq(key, "revision") {
        status.revision = value.to_owned();
        Ok(())
    } else {
        set_field_2(status, key, value)
    }
}

/// [`set_field`] for the keys that it does not recognise.
fn set_field_2(status: &mut Status, key: &str, value: &str) -> (r: Result<(), Error>)
    ensures
        match r {
            Ok(()) => with_field_2(old(status)@, key@, value@) == Ok::<StatusView, ErrorView>(
                final(status)@,
            ),
            Err(e) => with_field_2(old(status)@, key@, value@) == Err::<StatusView, ErrorView>(e@),
        },
{
    if text_eq(key, "revision_date") {
        status.revision_data = value.to_owned();
        Ok(())
    } else if text_eq(key, "hub") {
        status.hub = text_eq(value, "1");
        Ok(())
    } else if text_eq(key, "identifier") {
        status.identifier = text_eq(value, "1");
        Ok(())
    } else if text_eq(key, "admins") {
        match integer_field(key, value) {
            Ok(n) => {
                status.admins = n;
                Ok(())
            },
            Err(e) => Err(e),
        }
    } else if text_eq(key, "gamestate") {
        match GameState::from_str(value) {
            Ok(x) => {
                status.gamestate = x;
                Ok(())
            },
            Err(e) => Err(e),
        }
    } else if text_eq(key, "map_name") {
        status.map_name = replace_char(value, '+', ' ');
        assert(status.map_name@ =~= plus_as_space(value@));
        Ok(())
    } else if text_eq(key, "security_level") {
        match SecurityLevel::from_str(value) {
            Ok(x) => {
                status.security_level = x;
                Ok(())
            },
            Err(e) => Err(e),
        }
    } else {
        set_field_3(status, key, value)
    }
}

/// [`set_field_2`] for the keys that it does not recognise.
fn set_field_3(status: &mut Status, key: &str, value: &str) -> (r: Result<(), Error>)
    ensures
        match r {
            Ok(()) => with_field_3(old(status)@, key@, value@) == Ok::<StatusView, ErrorView>(
                final(status)@,
            ),
            Err(e) => with_field_3(old(status)@, key@, value@) == Err::<StatusView, ErrorView>(e@),
        },
{
    if text_eq(key, "round_duration") {
        match integer_field(key, value) {
            Ok(n) => {
                status.round_duration = n;
                Ok(())
            },
            Err(e) => Err(e),
        }
    } else if text_eq(key, "time_dilation_current") {
        status.time_dilation_current = Some(value.to_owned());
        Ok(())
    } else if text_eq(key, "time_dilation_avg") {
        status.time_dilation_avg = Some(value.to_owned());
        Ok(())
    } else if text_eq(key, "time_dilation_avg_slow") {
        status.time_dilation_avg_slow = Some(value.to_owned());
        Ok(())
    } else if text_eq(key, "time_dilation_avg_fast") {
        status.time_dilation_avg_fast = Some(value.to_owned());
        Ok(())
    } else if text_eq(key, "soft_popcap") {
        match integer_field(key, value) {
            Ok(n) => {
                status.soft_popcap = n;
                Ok(())
            },
            Err(e) => Err(e),
        }
    } else if text_eq(key, "hard_popcap") {
        match integer_field(key, value) {
            Ok(n) => {
                status.hard_popcap = n;
                Ok(())
            },
            Err(e) => Err(e),
        }
    } else {
        set_field_4(status, key, value)
    }
}

/// [`set_field_3`] for the keys that it does not recognise.
fn set_field_4(status: &mut Status, key: &str, value: &str) -> (r: Result<(), Error>)
    ensures
        match r {
            Ok(()) => with_field_4(old(status)@, key@, value@) == Ok::<StatusView, ErrorView>(
                final(status)@,
            ),
            Err(e) => with_field_4(old(status)@, key@, value@) == Err::<StatusView, ErrorView>(e@),
        },
{
    if text_eq(key, "extreme_popcap") {
        match integer_field(key, value) {
            Ok(n) => {
                status.extreme_popcap = n;
                Ok(())
            },
            Err(e) => Err(e),
        }
    } else if text_eq(key, "popcap") {
        status.popcap = text_eq(value, "1");
        Ok(())
    } else if text_eq(key, "bunkered") {
        status.bunkered = text_eq(value, "1");
        Ok(())
    } else if text_eq(key, "interviews") {
        status.interviews = text_eq(value, "1");
        Ok(())
    } else if text_eq(key, "shuttle_mode") {
        match ShuttleMode::from_str(value) {
            Ok(x) => {
                status.shuttle_mode = x;
                Ok(())
            },
            Err(e) => Err(e),
        }
    } else if text_eq(key, "shuttle_timer") {
        match integer_field(key, value) {
            Ok(n) => {
                status.shuttle_timer = n;
                Ok(())
            },
            Err(e) => Err(e),
        }
    } else if text_eq(key, "public_address") {
        status.public_address = value.to_owned();
        Ok(())
    } else {
        Ok(())
    }
}

impl Default for Status {
    /// A record with every field at its zero value.
    fn default() -> (r: Status)
        ensures
            r@ == StatusView::initial(),
    {
        Status::new()
    }
}

/// The key of one `key=value` segment: what stands before its first `=`.
pub open spec fn key_of(seg: Seq<char>) -> Seq<char> {
    seg.take(index_of(seg, '=') as int)
}

/// The value of one segment: what follows its first `=`, or nothing when it has none.
pub open spec fn value_of(seg: Seq<char>) -> Seq<char> {
    if index_of(seg, '=') < seg.len() {
        seg.skip(index_of(seg, '=') + 1 as int)
    } else {
        Seq::empty()
    }
}

/// The record that the segments of `s` make, applied in order to `st`.
pub open spec fn decode_from(s: Seq<char>, st: StatusView) -> Result<StatusView, ErrorView>
    decreases s.len(),
{
    let i = index_of(s, '&');
    let seg = s.take(i as int);
    match with_field(st, key_of(seg), value_of(seg)) {
        Err(e) => Err(e),
        Ok(next) => if i < s.len() {
            decode_from(s.skip(i + 1 as int), next)
        } else {
            Ok(next)
        },
    }
}

/// What a status text decodes to, starting from the zero record.
pub open spec fn decoded_status(s: Seq<char>) -> Result<StatusView, ErrorView> {
    decode_from(s, StatusView::initial())
}

/// Decodes a status text: splits it on `&`, each segment once on its first `=`, and applies
/// the pairs in order to a zero record. The first value that fails its parse is the error.
pub fn decode(text: &str) -> (r: Result<Status, Error>)
    ensures
        match r {
            Ok(st) => decoded_status(text@) == Ok::<StatusView, ErrorView>(st@),
            Err(e) => decoded_status(text@) == Err::<StatusView, ErrorView>(e@),
        },
{
    let chars = chars_of(text);
    let n = chars.len();
    let mut status = Status::new();
    let mut start: usize = 0;
    assert(text@.skip(0) =~= text@);
    loop
        invariant
            chars@ == text@,
            n == chars@.len(),
            start <= n,
            decoded_status(text@) == decode_from(text@.skip(start as int), status@),
        decreases n - start,
    {
        let ghost rest = text@.skip(start as int);
        let end = find_char(&chars, start, n, '&');
        assert(chars@.subrange(start as int, n as int) =~= rest);
        let ghost seg = rest.take((end - start) as int);
        assert(seg =~= chars@.subrange(start as int, end as int));
        let eq = find_char(&chars, start, end, '=');
        let key = text.substring_char(start, eq);
        assert(key@ =~= key_of(seg));
        let value = if eq < end {
            text.substring_char(eq + 1, end)
        } else {
            ""
        };
        proof {
            if eq < end {
                assert(value@ =~= value_of(seg));
            } else {
                reveal_strlit("");
                assert(value@ =~= value_of(seg));
            }
        }
        match set_field(&mut status, key, value) {
            Ok(()) => {},
            Err(e) => {
                return Err(e);
            },
        }
        if end == n {
            return Ok(status);
        }
        assert(rest.skip(end - start + 1) =~= text@.skip(end + 1));
        start = end + 1;
    }
}

/// The status that a reply carries: a text reply is decoded, any other reply is
/// [`Error::UnexpectedResponse`].
pub fn status_from_response(response: Response) -> (r: Result<Status, Error>)
    ensures
        match response {
            Response::String(s) => match r {
                Ok(st) => decoded_status(s@) == Ok::<StatusView, ErrorView>(st@),
                Err(e) => decoded_status(s@) == Err::<StatusView, ErrorView>(e@),
            },
            _ => r matches Err(e) && e@ == ErrorView::UnexpectedResponse(response@),
        },
{
    match response {
        Response::String(s) => decode(s.as_str()),
        other => Err(Error::UnexpectedResponse(other)),
    }
}

} // verus!
