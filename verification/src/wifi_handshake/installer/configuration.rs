//! Asking the operator for the access point.

use crate::text::{chars_of, remove_char, string_of, utf8_width, width_of, without};
use crate::wifi_handshake::config::ApConfig;
use vstd::prelude::*;

verus! {

/// Takes the name, the password and the address of the access point.
#[derive(Debug, Clone, Copy, PartialEq, Eq)]
pub struct ConfigurationStep;

/// The number of bytes that `s` takes in UTF-8.
pub open spec fn byte_length(s: Seq<char>) -> int
    decreases s.len(),
{
    if s.len() == 0 {
        0
    } else {
        byte_length(s.drop_last()) + utf8_width(s.last())
    }
}

impl ConfigurationStep {
    /// A password can be used: without its quotation marks it takes 8 to 63
    /// bytes.
    pub open spec fn usable(password: Seq<char>) -> bool {
        8 <= byte_length(without(password, '"')) <= 63
    }

    /// The address that the access point has unless the operator gives
    /// another.
    pub open spec fn default_address() -> Seq<char> {
        "192.168.16.1"@
    }

    pub fn new() -> (r: Self) {
        Self
    }

    /// The address that the access point has unless the operator gives
    /// another.
    pub fn default_ip_address(&self) -> (r: String)
        ensures
            r@ == ConfigurationStep::default_address(),
    {
        "192.168.16.1".to_owned()
    }

    /// The password without its quotation marks, if it can be used;
    /// otherwise the operator is asked again.
    pub fn clean_password(&self, password: &str) -> (r: Option<String>)
        ensures
            match r {
                Some(cleaned) => ConfigurationStep::usable(password@) && cleaned@ == without(
                    password@,
                    '"',
                ),
                None => !ConfigurationStep::usable(password@),
            },
    {
        let given = chars_of(password);
        let cleaned = remove_char(given.as_slice(), '"');
        let mut bytes: usize = 0;
        let mut i: usize = 0;
        while i < cleaned.len()
            invariant
                i <= cleaned.len(),
                bytes == byte_length(cleaned@.take(i as int)),
                bytes <= 63,
                cleaned@ == without(password@, '"'),
            decreases cleaned.len() - i,
        {
            assert(cleaned@.take(i as int + 1).drop_last() =~= cleaned@.take(i as int));
            bytes = bytes + width_of(cleaned[i]);
            if bytes > 63 {
                proof {
                    lemma_byte_length_grows(cleaned@, i as int + 1);
                }
                return None;
            }
            i += 1;
        }
        assert(cleaned@.take(cleaned.len() as int) =~= cleaned@);
        if bytes < 8 {
            return None;
        }
        Some(string_of(cleaned.as_slice()))
    }

    /// The access point as the operator gave it, if the password can be
    /// used.
    pub fn gather_config(&self, ssid: String, password: &str, ip_address: String) -> (r: Option<
        ApConfig,
    >)
        ensures
            match r {
                Some(config) => ConfigurationStep::usable(password@) && config.ssid == ssid
                    && config.psk@ == without(password@, '"') && config.ip_address == ip_address,
                None => !ConfigurationStep::usable(password@),
            },
    {
        match self.clean_password(password) {
            Some(psk) => Some(ApConfig { ssid, psk, ip_address }),
            None => None,
        }
    }
}

/// A longer text takes no fewer bytes.
pub proof fn lemma_byte_length_grows(s: Seq<char>, k: int)
    requires
        0 <= k <= s.len(),
    ensures
        byte_length(s.take(k)) <= byte_length(s),
    decreases s.len() - k,
{
    if k < s.len() {
        lemma_byte_length_grows(s, k + 1);
        assert(s.take(k + 1).drop_last() =~= s.take(k));
    } else {
        assert(s.take(k) =~= s);
    }
}

} // verus!
