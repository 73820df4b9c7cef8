//! The network descriptors of the two interfaces.

use crate::text::{push_str, string_of};
use crate::wifi_handshake::config::ApConfig;
use crate::wifi_handshake::installer::{backup, plan, write_file, Action, ActionView, InstallerStep};
use vstd::prelude::*;

verus! {

/// Writes the descriptors of the wired interface, of the wireless interface
/// as a client, and of the wireless interface as an access point.
pub struct SystemdNetworkStep<'a> {
    pub config: &'a ApConfig,
}

impl<'a> SystemdNetworkStep<'a> {
    pub open spec fn ethernet_path() -> Seq<char> {
        "/etc/systemd/network/10-eth0.network"@
    }

    pub open spec fn client_path() -> Seq<char> {
        "/etc/systemd/network/11-wlan0.network"@
    }

    pub open spec fn client_backup_path() -> Seq<char> {
        "/etc/systemd/network/11-wlan0.network~"@
    }

    pub open spec fn ap_path() -> Seq<char> {
        "/etc/systemd/network/12-wlan0AP.network"@
    }

    /// The descriptor of the wired interface.
    pub open spec fn ethernet_descriptor() -> Seq<char> {
        "[Match]\nName=eth0\n\n[Network]\nDHCP=ipv4\n\n[DHCP]\nRouteMetric=10\nUseDomains=yes\nUseDNS=yes\n\n"@
    }

    /// The descriptor of the wireless interface as a client.
    pub open spec fn client_descriptor() -> Seq<char> {
        "[Match]\nName=wlan0\n\n[Network]\nDHCP=ipv4\n\n[DHCP]\nRouteMetric=20\nUseDomains=yes\nUseDNS=yes\n\n"@
    }

    /// The descriptor of the wireless interface as an access point with
    /// this address.
    pub open spec fn ap_descriptor(ip_address: Seq<char>) -> Seq<char> {
        "[Match]\nName=wlan0\n\n[Network]\nDHCPServer=yes\nAddress="@ + ip_address + "/24\n\n"@
    }

    /// What the step does: copies of the three descriptors are kept, a
    /// client descriptor at its backup path is removed, and the three are
    /// written.
    pub open spec fn steps(ip_address: Seq<char>) -> Seq<ActionView> {
        seq![
            ActionView::Backup(Self::ethernet_path()),
            ActionView::Backup(Self::client_path()),
            ActionView::Backup(Self::ap_path()),
            ActionView::RemoveIfPresent(Self::client_backup_path()),
            ActionView::Write { path: Self::ethernet_path(), content: Self::ethernet_descriptor() },
            ActionView::Write { path: Self::client_path(), content: Self::client_descriptor() },
            ActionView::Write { path: Self::ap_path(), content: Self::ap_descriptor(ip_address) },
        ]
    }

    pub fn new(config: &'a ApConfig) -> (r: Self)
        ensures
            r.config == config,
    {
        Self { config }
    }

    /// The writing of the descriptor of the wired interface.
    pub fn create_ethernet_config(&self) -> (r: Action)
        ensures
            r@ == (ActionView::Write {
                path: Self::ethernet_path(),
                content: Self::ethernet_descriptor(),
            }),
    {
        write_file(
            "/etc/systemd/network/10-eth0.network",
            "[Match]\nName=eth0\n\n[Network]\nDHCP=ipv4\n\n[DHCP]\nRouteMetric=10\nUseDomains=yes\nUseDNS=yes\n\n".to_owned(),
        )
    }

    /// The writing of the descriptor of the wireless interface as a client.
    pub fn create_wifi_client_config(&self) -> (r: Action)
        ensures
            r@ == (ActionView::Write {
                path: Self::client_path(),
                content: Self::client_descriptor(),
            }),
    {
        write_file(
            "/etc/systemd/network/11-wlan0.network",
            "[Match]\nName=wlan0\n\n[Network]\nDHCP=ipv4\n\n[DHCP]\nRouteMetric=20\nUseDomains=yes\nUseDNS=yes\n\n".to_owned(),
        )
    }

    /// The writing of the descriptor of the access point.
    pub fn create_ap_config(&self) -> (r: Action)
        ensures
            r@ == (ActionView::Write {
                path: Self::ap_path(),
                content: Self::ap_descriptor(self.config.ip_address@),
            }),
    {
        let mut out: Vec<char> = Vec::new();
        push_str(&mut out, "[Match]\nName=wlan0\n\n[Network]\nDHCPServer=yes\nAddress=");
        push_str(&mut out, self.config.ip_address.as_str());
        push_str(&mut out, "/24\n\n");
        write_file("/etc/systemd/network/12-wlan0AP.network", string_of(out.as_slice()))
    }
}

impl<'a> InstallerStep for SystemdNetworkStep<'a> {
    fn execute(&self) -> (r: Vec<Action>)
        ensures
            plan(r@) == SystemdNetworkStep::steps(self.config.ip_address@),
    {
        let mut out: Vec<Action> = Vec::new();
        out.push(backup("/etc/systemd/network/10-eth0.network"));
        out.push(backup("/etc/systemd/network/11-wlan0.network"));
        out.push(backup("/etc/systemd/network/12-wlan0AP.network"));
        out.push(Action::RemoveIfPresent("/etc/systemd/network/11-wlan0.network~".to_owned()));
        out.push(self.create_ethernet_config());
        out.push(self.create_wifi_client_config());
        out.push(self.create_ap_config());
        assert(plan(out@) =~= SystemdNetworkStep::steps(self.config.ip_address@));
        out
    }
}

} // verus!
