//! A notification of the supplicant and its textual form.

use crate::text::{chars_of, equals_str, push_str, string_of, texts};
use vstd::prelude::*;

verus! {

/// A change of state that the supplicant reports.
#[derive(Debug, Clone, Copy, PartialEq, Eq, Structural)]
pub enum WpaState {
    /// The access point has been enabled.
    ApEnabled,
    /// The access point has been disabled.
    ApDisabled,
    /// The interface joined a network as a client.
    Connected,
    /// A station joined our access point.
    ApStaConnected,
    /// A station left our access point.
    ApStaDisconnected,
    /// The interface lost the network it had joined.
    Disconnected,
}

/// Why the arguments of an invocation are not a notification.
#[derive(Debug, Clone, PartialEq, Eq)]
pub enum EventError {
    /// Fewer than an interface and a state follow the program's name.
    InsufficientArguments,
    /// The state is none of the six tokens; it is kept as it was given.
    UnrecognizedState(String),
}

/// A notification: the interface, what happened, and for the notifications
/// about a station its hardware address.
#[derive(Debug, Clone, PartialEq, Eq)]
pub struct WpaEvent {
    pub interface: String,
    pub state: WpaState,
    pub mac_address: Option<String>,
}

/// A notification as plain values.
pub struct WpaEventView {
    pub interface: Seq<char>,
    pub state: WpaState,
    pub mac_address: Option<Seq<char>>,
}

impl View for WpaEvent {
    type V = WpaEventView;

    open spec fn view(&self) -> WpaEventView {
        WpaEventView {
            interface: self.interface@,
            state: self.state,
            mac_address: match self.mac_address {
                Some(mac) => Some(mac@),
                None => None,
            },
        }
    }
}

impl WpaState {
    /// The token that stands for this state on the wire.
    pub open spec fn token(self) -> Seq<char> {
        match self {
            WpaState::ApEnabled => "AP-ENABLED"@,
            WpaState::ApDisabled => "AP-DISABLED"@,
            WpaState::Connected => "CONNECTED"@,
            WpaState::ApStaConnected => "AP-STA-CONNECTED"@,
            WpaState::ApStaDisconnected => "AP-STA-DISCONNECTED"@,
            WpaState::Disconnected => "DISCONNECTED"@,
        }
    }

    /// The state that `token` stands for: the token matches exactly or not
    /// at all.
    pub open spec fn of_token(token: Seq<char>) -> Option<WpaState> {
        if token == "AP-ENABLED"@ {
            Some(WpaState::ApEnabled)
        } else if token == "AP-DISABLED"@ {
            Some(WpaState::ApDisabled)
        } else if token == "CONNECTED"@ {
            Some(WpaState::Connected)
        } else if token == "AP-STA-CONNECTED"@ {
            Some(WpaState::ApStaConnected)
        } else if token == "AP-STA-DISCONNECTED"@ {
            Some(WpaState::ApStaDisconnected)
        } else if token == "DISCONNECTED"@ {
            Some(WpaState::Disconnected)
        } else {
            None
        }
    }

    /// The six tokens differ from each other, so each state is read back
    /// from its own token.
    pub proof fn lemma_token_round_trip(self)
        ensures
            WpaState::of_token(self.token()) == Some(self),
    {
        reveal_strlit("AP-ENABLED");
        reveal_strlit("AP-DISABLED");
        reveal_strlit("CONNECTED");
        reveal_strlit("AP-STA-CONNECTED");
        reveal_strlit("AP-STA-DISCONNECTED");
        reveal_strlit("DISCONNECTED");
        assert("AP-ENABLED"@.len() == 10);
        assert("AP-DISABLED"@.len() == 11);
        assert("CONNECTED"@.len() == 9);
        assert("AP-STA-CONNECTED"@.len() == 16);
        assert("AP-STA-DISCONNECTED"@.len() == 19);
        assert("DISCONNECTED"@.len() == 12);
    }

    /// Only a state's own token is read as that state.
    pub proof fn lemma_of_token_is_token(token: Seq<char>)
        ensures
            WpaState::of_token(token) matches Some(state) ==> state.token() == token,
    {
    }

    /// The token of this state.
    pub fn as_str(&self) -> (r: &'static str)
        ensures
            r@ == self.token(),
    {
        match self {
            WpaState::ApEnabled => "AP-ENABLED",
            WpaState::ApDisabled => "AP-DISABLED",
            WpaState::Connected => "CONNECTED",
            WpaState::ApStaConnected => "AP-STA-CONNECTED",
            WpaState::ApStaDisconnected => "AP-STA-DISCONNECTED",
            WpaState::Disconnected => "DISCONNECTED",
        }
    }

    /// The token of this state, as the supplicant writes it.
    pub fn to_string(&self) -> (r: String)
        ensures
            r@ == self.token(),
    {
        self.as_str().to_owned()
    }

    /// Reads a token. A token that is not one of the six, letter for letter,
    /// is an error that carries the token.
    pub fn from_str(s: &str) -> (r: Result<WpaState, EventError>)
        ensures
            match r {
                Ok(state) => WpaState::of_token(s@) == Some(state),
                Err(EventError::UnrecognizedState(given)) => WpaState::of_token(s@) is None
                    && given@ == s@,
                Err(EventError::InsufficientArguments) => false,
            },
    {
        let token = chars_of(s);
        if equals_str(token.as_slice(), "AP-ENABLED") {
            Ok(WpaState::ApEnabled)
        } else if equals_str(token.as_slice(), "AP-DISABLED") {
            Ok(WpaState::ApDisabled)
        } else if equals_str(token.as_slice(), "CONNECTED") {
            Ok(WpaState::Connected)
        } else if equals_str(token.as_slice(), "AP-STA-CONNECTED") {
            Ok(WpaState::ApStaConnected)
        } else if equals_str(token.as_slice(), "AP-STA-DISCONNECTED") {
            Ok(WpaState::ApStaDisconnected)
        } else if equals_str(token.as_slice(), "DISCONNECTED") {
            Ok(WpaState::Disconnected)
        } else {
            Err(EventError::UnrecognizedState(s.to_owned()))
        }
    }
}

impl EventError {
    /// The text of this error.
    pub open spec fn message(self) -> Seq<char> {
        match self {
            EventError::InsufficientArguments =>
                "Insufficient arguments. Expected: <interface> <state> [mac_address]"@,
            EventError::UnrecognizedState(given) => "Unrecognized WiFi state: "@ + given@,
        }
    }

    /// The text of this error.
    pub fn to_string(&self) -> (r: String)
        ensures
            r@ == self.message(),
    {
        match self {
            EventError::InsufficientArguments => {
                "Insufficient arguments. Expected: <interface> <state> [mac_address]".to_owned()
            },
            EventError::UnrecognizedState(given) => {
                let mut out: Vec<char> = Vec::new();
                push_str(&mut out, "Unrecognized WiFi state: ");
                push_str(&mut out, given.as_str());
                string_of(out.as_slice())
            },
        }
    }
}

impl WpaEventView {
    /// What the arguments of an invocation say: after the program's name an
    /// interface, a state and, optionally, a hardware address. What follows
    /// the address is not read.
    pub open spec fn of_args(args: Seq<Seq<char>>) -> Option<WpaEventView> {
        if args.len() < 3 {
            None
        } else {
            match WpaState::of_token(args[2]) {
                Some(state) => Some(
                    WpaEventView {
                        interface: args[1],
                        state,
                        mac_address: if args.len() > 3 {
                            Some(args[3])
                        } else {
                            None
                        },
                    },
                ),
                None => None,
            }
        }
    }

    /// The line that writes this notification: its parts with one blank
    /// between them.
    pub open spec fn line(self) -> Seq<char> {
        let head = self.interface + seq![' '] + self.state.token();
        match self.mac_address {
            Some(mac) => head + seq![' '] + mac,
            None => head,
        }
    }
}

impl WpaEvent {
    /// A notification of its three parts.
    pub fn new(interface: String, state: WpaState, mac_address: Option<String>) -> (r: Self)
        ensures
            r.interface == interface,
            r.state == state,
            r.mac_address == mac_address,
    {
        Self { interface, state, mac_address }
    }

    /// Reads the arguments of an invocation. Too few arguments and an
    /// unknown state are errors; nothing is guessed.
    pub fn from_args(args: Vec<String>) -> (r: Result<Self, EventError>)
        ensures
            match r {
                Ok(event) => WpaEventView::of_args(texts(args@)) == Some(event@),
                Err(EventError::InsufficientArguments) => args.len() < 3,
                Err(EventError::UnrecognizedState(given)) => args.len() >= 3 && WpaState::of_token(
                    args[2]@,
                ) is None && given@ == args[2]@,
            },
    {
        if args.len() < 3 {
            return Err(EventError::InsufficientArguments);
        }
        let state = match WpaState::from_str(args[2].as_str()) {
            Ok(state) => state,
            Err(e) => {
                return Err(e);
            },
        };
        let interface = args[1].clone();
        let mac_address = if args.len() > 3 {
            Some(args[3].clone())
        } else {
            None
        };
        Ok(Self::new(interface, state, mac_address))
    }

    /// The line that writes this notification.
    pub fn to_string(&self) -> (r: String)
        ensures
            r@ == self@.line(),
    {
        let mut out: Vec<char> = Vec::new();
        push_str(&mut out, self.interface.as_str());
        out.push(' ');
        push_str(&mut out, self.state.as_str());
        match &self.mac_address {
            Some(mac) => {
                out.push(' ');
                push_str(&mut out, mac.as_str());
            },
            None => {},
        }
        assert(out@ =~= self@.line());
        string_of(out.as_slice())
    }
}

} // verus!
