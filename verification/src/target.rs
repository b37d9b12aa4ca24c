//! Where a client wants to be connected to.

use crate::text;
use fast_socks5::util::target_addr::TargetAddr as SocksTarget;
use vstd::prelude::*;

verus! {

/// An address with a port, or a domain with a port.
#[derive(Clone, Debug, PartialEq, Eq)]
pub enum TargetAddr {
    Ipv4([u8; 4], u16),
    Ipv6([u8; 16], u16),
    Domain(String, u16),
}

/// A target, over plain sequences.
pub enum TargetView {
    Ipv4(Seq<u8>, u16),
    Ipv6(Seq<u8>, u16),
    Domain(Seq<char>, u16),
}

impl View for TargetAddr {
    type V = TargetView;

    open spec fn view(&self) -> TargetView {
        match *self {
            TargetAddr::Ipv4(ip, port) => TargetView::Ipv4(ip@, port),
            TargetAddr::Ipv6(ip, port) => TargetView::Ipv6(ip@, port),
            TargetAddr::Domain(domain, port) => TargetView::Domain(domain@, port),
        }
    }
}

/// How an IPv6 address with a port reads.
pub uninterp spec fn ipv6_text(ip: Seq<u8>, port: u16) -> Seq<char>;

/// How a target reads: the address in its own notation or the domain, a colon, the port.
pub open spec fn target_text(target: TargetView) -> Seq<char> {
    match target {
        TargetView::Ipv4(ip, port) => text::decimal(ip[0] as nat).push('.') + text::decimal(
            ip[1] as nat,
        ).push('.') + text::decimal(ip[2] as nat).push('.') + text::decimal(ip[3] as nat).push(':')
            + text::decimal(port as nat),
        TargetView::Ipv6(ip, port) => ipv6_text(ip, port),
        TargetView::Domain(domain, port) => domain.push(':') + text::decimal(port as nat),
    }
}

/// Writes a target.
///
/// Trusted: the `Display` of `fast_socks5::util::target_addr::TargetAddr` writes a domain, a colon
/// and the port in decimal notation, and an address as that of the standard library's socket
/// addresses does: for IPv4 the four numbers in decimal notation with points between, a colon and
/// the port; for IPv6 a text that depends on the address and the port alone and that `ipv6_text`
/// names.
#[verifier::external_body]
fn write_target(target: &TargetAddr) -> (text: String)
    ensures
        text@ == match target@ {
            TargetView::Ipv6(ip, port) => ipv6_text(ip, port),
            other => target_text(other),
        },
{
    let target = match target {
        TargetAddr::Ipv4(ip, port) => SocksTarget::Ip((*ip, *port).into()),
        TargetAddr::Ipv6(ip, port) => SocksTarget::Ip((*ip, *port).into()),
        TargetAddr::Domain(domain, port) => SocksTarget::Domain(domain.clone(), *port),
    };
    target.to_string()
}

impl TargetAddr {
    /// How the target reads.
    pub fn text(&self) -> (text: String)
        ensures
            text@ == target_text(self@),
    {
        write_target(self)
    }
}

/// A target reads as its address or domain, a colon and its port.
pub proof fn law_target_reads_in_full(target: TargetView)
    ensures
        match target {
            TargetView::Ipv4(ip, port) => target_text(target) == text::decimal(ip[0] as nat) + seq![
                '.',
            ] + text::decimal(ip[1] as nat) + seq!['.'] + text::decimal(ip[2] as nat) + seq!['.']
                + text::decimal(ip[3] as nat) + seq![':'] + text::decimal(port as nat),
            TargetView::Ipv6(ip, port) => target_text(target) == ipv6_text(ip, port),
            TargetView::Domain(domain, port) => target_text(target) == domain + seq![':']
                + text::decimal(port as nat),
        },
{
    match target {
        TargetView::Ipv4(ip, port) => {
            assert(target_text(target) =~= text::decimal(ip[0] as nat) + seq!['.'] + text::decimal(
                ip[1] as nat,
            ) + seq!['.'] + text::decimal(ip[2] as nat) + seq!['.'] + text::decimal(ip[3] as nat)
                + seq![':'] + text::decimal(port as nat));
        },
        TargetView::Ipv6(_, _) => {},
        TargetView::Domain(domain, port) => {
            assert(target_text(target) =~= domain + seq![':'] + text::decimal(port as nat));
        },
    }
}

/// Two domains with their ports read the same only where both are the same.
pub proof fn law_domains_and_ports_are_told_apart(
    domain: Seq<char>,
    port: u16,
    other: Seq<char>,
    other_port: u16,
)
    requires
        target_text(TargetView::Domain(domain, port)) == target_text(
            TargetView::Domain(other, other_port),
        ),
    ensures
        domain == other,
        port == other_port,
{
    let text = target_text(TargetView::Domain(domain, port));
    let digits = text::decimal(port as nat);
    let other_digits = text::decimal(other_port as nat);
    text::law_decimal_is_read_back(port as nat);
    text::law_decimal_is_read_back(other_port as nat);
    assert(text == domain.push(':') + digits);
    assert(text == other.push(':') + other_digits);
    assert(text[domain.len() as int] == ':');
    assert(text[other.len() as int] == ':');
    if domain.len() < other.len() {
        assert(text[other.len() as int] == digits[other.len() - (domain.len() + 1)]);
    }
    if other.len() < domain.len() {
        assert(text[domain.len() as int] == other_digits[domain.len() - (other.len() + 1)]);
    }
    assert(domain =~= text.take(domain.len() as int));
    assert(other =~= text.take(other.len() as int));
    assert(digits =~= text.skip(domain.len() as int + 1));
    assert(other_digits =~= text.skip(other.len() as int + 1));
}

/// A target reads, over plain sequences, as what it is.
pub proof fn law_view_of_a_target(target: TargetAddr)
    ensures
        match target {
            TargetAddr::Ipv4(ip, port) => target@ == TargetView::Ipv4(ip@, port),
            TargetAddr::Ipv6(ip, port) => target@ == TargetView::Ipv6(ip@, port),
            TargetAddr::Domain(domain, port) => target@ == TargetView::Domain(domain@, port),
        },
{
}

} // verus!
