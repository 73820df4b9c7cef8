//! Telling a real connection to a client network from the echo of one.
//!
//! The supplicant reports `CONNECTED` also while the interface is still an
//! access point. A connection counts only if the status names a network and a
//! completed handshake, shows no sign of access point mode, and the interface
//! holds an address that is neither the loopback nor a link-local one.

use crate::text::{
    chars_of, contains, ends_with, lines, lines_of, occurs_in, split_whitespace, starts_with, trim,
    trim_end, trimmed, trimmed_end, views, words_of,
};
use crate::wifi_handshake::runtime::AutoApHandler;
use vstd::prelude::*;

verus! {

/// What a single line of output is looked at for.
#[derive(Debug, Clone, Copy, PartialEq, Eq, Structural)]
pub enum LineTest {
    /// The status names the network that was joined.
    NamesNetwork,
    /// The status says that the handshake is completed.
    Completed,
    /// The status shows access point mode, or a disabled interface.
    AccessPoint,
    /// The address list holds an address that can be routed.
    RoutableAddress,
}

impl LineTest {
    /// Whether `line` passes this test.
    pub open spec fn holds(self, line: Seq<char>) -> bool {
        match self {
            LineTest::NamesNetwork => "ssid="@.is_prefix_of(line) && !"="@.is_suffix_of(
                trimmed_end(line),
            ),
            LineTest::Completed => "wpa_state="@.is_prefix_of(line) && occurs_in(
                line,
                "COMPLETED"@,
            ),
            LineTest::AccessPoint => occurs_in(line, "mode=AP"@) || occurs_in(
                line,
                "wpa_state=INTERFACE_DISABLED"@,
            ),
            LineTest::RoutableAddress => {
                let entry = trimmed(line);
                &&& "inet "@.is_prefix_of(entry)
                &&& !occurs_in(line, "127.0.0.1"@)
                &&& words_of(entry).len() > 1
                &&& !"169.254."@.is_prefix_of(words_of(entry)[1])
            },
        }
    }

    /// Whether some line of `text` passes this test.
    pub open spec fn holds_somewhere(self, text: Seq<char>) -> bool {
        exists|i: int| 0 <= i < lines_of(text).len() && self.holds(#[trigger] lines_of(text)[i])
    }

    /// Whether `line` passes this test.
    pub fn check(self, line: &[char]) -> (r: bool)
        ensures
            r == self.holds(line@),
    {
        match self {
            LineTest::NamesNetwork => {
                let key = chars_of("ssid=");
                let equals = chars_of("=");
                starts_with(line, key.as_slice()) && !ends_with(trim_end(line), equals.as_slice())
            },
            LineTest::Completed => {
                let key = chars_of("wpa_state=");
                let word = chars_of("COMPLETED");
                starts_with(line, key.as_slice()) && contains(line, word.as_slice())
            },
            LineTest::AccessPoint => {
                let mode = chars_of("mode=AP");
                let disabled = chars_of("wpa_state=INTERFACE_DISABLED");
                contains(line, mode.as_slice()) || contains(line, disabled.as_slice())
            },
            LineTest::RoutableAddress => {
                let key = chars_of("inet ");
                let loopback = chars_of("127.0.0.1");
                let link_local = chars_of("169.254.");
                let entry = trim(line);
                if !starts_with(entry, key.as_slice()) || contains(line, loopback.as_slice()) {
                    return false;
                }
                let words = split_whitespace(entry);
                if words.len() <= 1 {
                    assert(views(words@).len() == words@.len());
                    return false;
                }
                assert(views(words@)[1] == words@[1]@);
                !starts_with(words[1], link_local.as_slice())
            },
        }
    }

    /// Whether some line of `text` passes this test.
    pub fn check_any(self, text: &str) -> (r: bool)
        ensures
            r == self.holds_somewhere(text@),
    {
        let chars = chars_of(text);
        let all = lines(chars.as_slice());
        let mut i: usize = 0;
        while i < all.len()
            invariant
                i <= all.len(),
                views(all@) == lines_of(text@),
                forall|j: int| 0 <= j < i ==> !self.holds(#[trigger] lines_of(text@)[j]),
            decreases all.len() - i,
        {
            assert(views(all@)[i as int] == all@[i as int]@);
            if self.check(all[i]) {
                return true;
            }
            i += 1;
        }
        false
    }
}

/// The status of the supplicant is that of a client that has joined a
/// network.
pub open spec fn status_shows_client(status: Seq<char>) -> bool {
    &&& LineTest::NamesNetwork.holds_somewhere(status)
    &&& LineTest::Completed.holds_somewhere(status)
    &&& !LineTest::AccessPoint.holds_somewhere(status)
}

/// The address list holds an address that is neither the loopback nor
/// link-local.
pub open spec fn has_routable_address(addresses: Seq<char>) -> bool {
    LineTest::RoutableAddress.holds_somewhere(addresses)
}

impl AutoApHandler {
    /// Whether the status of the supplicant is that of a client that has
    /// joined a network.
    pub fn check_status(status: &str) -> (r: bool)
        ensures
            r == status_shows_client(status@),
    {
        let has_ssid = LineTest::NamesNetwork.check_any(status);
        let wpa_state_completed = LineTest::Completed.check_any(status);
        let not_in_ap_mode = !LineTest::AccessPoint.check_any(status);
        has_ssid && wpa_state_completed && not_in_ap_mode
    }

    /// Whether the interface holds an address that can be routed, by the
    /// list of its addresses.
    pub fn check_device_has_ip(addresses: &str) -> (r: bool)
        ensures
            r == has_routable_address(addresses@),
    {
        LineTest::RoutableAddress.check_any(addresses)
    }

    /// Whether the interface has really joined a client network, by the
    /// status of the supplicant and the list of the interface's addresses.
    pub fn is_actually_connected_to_client(status: &str, addresses: &str) -> (r: bool)
        ensures
            r == (status_shows_client(status@) && has_routable_address(addresses@)),
    {
        let shows_client = Self::check_status(status);
        let has_ip_address = Self::check_device_has_ip(addresses);
        shows_client && has_ip_address
    }
}

} // verus!
