//! Asking the operator before anything is changed.

use crate::text::{push_str, string_of};
use crate::wifi_handshake::config::ApConfig;
use crate::wifi_handshake::installer::{plan, Action, ActionView, InstallerStep};
use vstd::prelude::*;

verus! {

/// Shows what will be set up and asks whether to go on.
pub struct ConfirmationStep<'a> {
    pub config: &'a ApConfig,
}

impl<'a> ConfirmationStep<'a> {
    /// What the step does: the access point is shown line by line, and the
    /// operator is asked.
    pub open spec fn steps(config: ApConfig) -> Seq<ActionView> {
        seq![
            ActionView::Show("\n        autoAP Configuration (AP-only mode)"@),
            ActionView::Show(" Access Point SSID:     "@ + config.ssid@),
            ActionView::Show(" Access Point password: "@ + config.psk@),
            ActionView::Show(" Access Point IP addr:  "@ + config.ip_address@),
            ActionView::Show(""@),
            ActionView::Show(" Note: WiFi client configuration will be handled separately"@),
            ActionView::Show(""@),
            ActionView::Confirm {
                prompt: "Are you ready to proceed?"@,
                refusal: "Installation cancelled by user"@,
            },
        ]
    }

    pub fn new(config: &'a ApConfig) -> (r: Self)
        ensures
            r.config == config,
    {
        Self { config }
    }

    /// The line that shows `value` under `label`.
    fn line(label: &str, value: &str) -> (r: Action)
        ensures
            r@ == ActionView::Show(label@ + value@),
    {
        let mut out: Vec<char> = Vec::new();
        push_str(&mut out, label);
        push_str(&mut out, value);
        Action::Show(string_of(out.as_slice()))
    }
}

impl<'a> InstallerStep for ConfirmationStep<'a> {
    fn execute(&self) -> (r: Vec<Action>)
        ensures
            plan(r@) == ConfirmationStep::steps(*self.config),
    {
        let mut out: Vec<Action> = Vec::new();
        out.push(Action::Show("\n        autoAP Configuration (AP-only mode)".to_owned()));
        out.push(Self::line(" Access Point SSID:     ", self.config.ssid.as_str()));
        out.push(Self::line(" Access Point password: ", self.config.psk.as_str()));
        out.push(Self::line(" Access Point IP addr:  ", self.config.ip_address.as_str()));
        out.push(Action::Show("".to_owned()));
        out.push(
            Action::Show(" Note: WiFi client configuration will be handled separately".to_owned()),
        );
        out.push(Action::Show("".to_owned()));
        out.push(
            Action::Confirm {
                prompt: "Are you ready to proceed?".to_owned(),
                refusal: "Installation cancelled by user".to_owned(),
            },
        );
        assert(plan(out@) =~= ConfirmationStep::steps(*self.config));
        out
    }
}

} // verus!
