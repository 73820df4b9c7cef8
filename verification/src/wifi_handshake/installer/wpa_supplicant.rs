//! The configuration of the supplicant.

use crate::text::{chars_of, push_chars, push_str, remove_char, string_of, without};
use crate::wifi_handshake::config::ApConfig;
use crate::wifi_handshake::installer::{plan, write_file, Action, ActionView, InstallerStep};
use vstd::prelude::*;

verus! {

/// Writes the configuration of the supplicant with the access point in it,
/// after putting an existing configuration aside.
pub struct WpaSupplicantStep<'a> {
    pub config: &'a ApConfig,
}

impl<'a> WpaSupplicantStep<'a> {
    /// The configuration that is not bound to an interface.
    pub open spec fn generic_path() -> Seq<char> {
        "/etc/wpa_supplicant/wpa_supplicant.conf"@
    }

    /// The configuration of the wireless interface.
    pub open spec fn interface_path() -> Seq<char> {
        "/etc/wpa_supplicant/wpa_supplicant-wlan0.conf"@
    }

    /// The configuration with the access point in it. Quotation marks are
    /// taken out of the name and the password.
    pub open spec fn configuration(ssid: Seq<char>, psk: Seq<char>) -> Seq<char> {
        "country=US\nctrl_interface=DIR=/var/run/wpa_supplicant GROUP=netdev\nupdate_config=1\nap_scan=1\n\n# WiFi client networks will be dynamically managed\n# Add your WiFi networks here or use a management interface\n\n### autoAP access point ###\nnetwork={\n    ssid=\""@
            + without(ssid, '"') + "\"\n    mode=2\n    key_mgmt=WPA-PSK\n    psk=\""@ + without(
            psk,
            '"',
        ) + "\"\n    frequency=2462\n}\n"@
    }

    pub fn new(config: &'a ApConfig) -> (r: Self)
        ensures
            r.config == config,
    {
        Self { config }
    }

    /// The configuration with the access point in it.
    pub fn render(&self) -> (r: String)
        ensures
            r@ == Self::configuration(self.config.ssid@, self.config.psk@),
    {
        let ssid = chars_of(self.config.ssid.as_str());
        let psk = chars_of(self.config.psk.as_str());
        let clean_ssid = remove_char(ssid.as_slice(), '"');
        let clean_psk = remove_char(psk.as_slice(), '"');
        let mut out: Vec<char> = Vec::new();
        push_str(
            &mut out,
            "country=US\nctrl_interface=DIR=/var/run/wpa_supplicant GROUP=netdev\nupdate_config=1\nap_scan=1\n\n# WiFi client networks will be dynamically managed\n# Add your WiFi networks here or use a management interface\n\n### autoAP access point ###\nnetwork={\n    ssid=\"",
        );
        push_chars(&mut out, clean_ssid.as_slice());
        push_str(&mut out, "\"\n    mode=2\n    key_mgmt=WPA-PSK\n    psk=\"");
        push_chars(&mut out, clean_psk.as_slice());
        push_str(&mut out, "\"\n    frequency=2462\n}\n");
        assert(out@ =~= Self::configuration(self.config.ssid@, self.config.psk@));
        string_of(out.as_slice())
    }
}

impl<'a> InstallerStep for WpaSupplicantStep<'a> {
    /// An existing configuration, the generic one before that of the
    /// interface, is put aside, and the new one is written.
    fn execute(&self) -> (r: Vec<Action>)
        ensures
            plan(r@) == seq![
                ActionView::Preserve {
                    first: WpaSupplicantStep::generic_path(),
                    second: WpaSupplicantStep::interface_path(),
                },
                ActionView::Write {
                    path: WpaSupplicantStep::interface_path(),
                    content: WpaSupplicantStep::configuration(
                        self.config.ssid@,
                        self.config.psk@,
                    ),
                },
            ],
    {
        let mut out: Vec<Action> = Vec::new();
        out.push(
            Action::Preserve {
                first: "/etc/wpa_supplicant/wpa_supplicant.conf".to_owned(),
                second: "/etc/wpa_supplicant/wpa_supplicant-wlan0.conf".to_owned(),
            },
        );
        out.push(write_file("/etc/wpa_supplicant/wpa_supplicant-wlan0.conf", self.render()));
        assert(plan(out@) =~= seq![
            ActionView::Preserve {
                first: WpaSupplicantStep::generic_path(),
                second: WpaSupplicantStep::interface_path(),
            },
            ActionView::Write {
                path: WpaSupplicantStep::interface_path(),
                content: WpaSupplicantStep::configuration(self.config.ssid@, self.config.psk@),
            },
        ]);
        out
    }
}

} // verus!
