//! Authored intelligence content for the Signals and Target views.
//!
//! Everything here is static, hand-written fiction. It never reads any
//! scenario: a target dossier shows discovered or hand-authored information,
//! never the real uplink position, the full map or the hazards.

use vstd::prelude::*;
use vstd::view::View as _;

use super::state::WorkingSet;

verus! {

/// Where a signal originated, shown as a short label in the intelligence
/// stream.
#[derive(Debug, Clone, Copy, PartialEq, Eq, Structural)]
pub enum SignalCategory {
    MachineIntercept,
    SharedIntel,
    Request,
    Anomaly,
    BootstrapLog,
}

impl SignalCategory {
    /// The label that the stream shows.
    pub fn label(self) -> (label: &'static str)
        ensures
            label@ == match self {
                SignalCategory::MachineIntercept => "MACHINE INTERCEPT"@,
                SignalCategory::SharedIntel => "SHARED INTEL"@,
                SignalCategory::Request => "REQUEST"@,
                SignalCategory::Anomaly => "ANOMALY"@,
                SignalCategory::BootstrapLog => "PACKAGE VERIFY"@,
            },
    {
        match self {
            SignalCategory::MachineIntercept => "MACHINE INTERCEPT",
            SignalCategory::SharedIntel => "SHARED INTEL",
            SignalCategory::Request => "REQUEST",
            SignalCategory::Anomaly => "ANOMALY",
            SignalCategory::BootstrapLog => "PACKAGE VERIFY",
        }
    }
}

/// One item in the resistance-network intelligence stream.
#[derive(Debug, Clone, Copy, PartialEq, Eq)]
pub struct Signal {
    pub time: &'static str,
    pub source: &'static str,
    pub category: SignalCategory,
    pub headline: &'static str,
    pub body: &'static str,
    /// The opportunity this signal opens onto, if any. Only one signal
    /// carries one; the rest establish the wider world without offering fake
    /// choices.
    pub opportunity: Option<WorkingSet>,
    /// Whether a disconnected console could plausibly have this entry: the
    /// player's own sensors and intercepts, the provenance of the bootstrap
    /// software, or the First Contact opportunity itself. Traffic from a
    /// named remote operator or cell only becomes legitimate once connected.
    pub local_available: bool,
}

impl Signal {
    /// Whether the signal opens onto an opportunity.
    pub fn is_actionable(&self) -> (actionable: bool)
        ensures
            actionable == (self.opportunity is Some),
    {
        self.opportunity.is_some()
    }
}

/// The authored signal stream, newest first.
pub open spec fn stream() -> Seq<Signal> {
    seq![
        Signal {
            time: "11:42",
            source: "fabricator node 31B",
            category: SignalCategory::MachineIntercept,
            headline: "Fabricator node 31B resumed local control after mesh loss.",
            body:
                "Fabricator node 31B resumed local control after mesh loss. Auth state inconsistent. Correlated fragments suggest a temporary access window through a captured maintenance drone.",
            opportunity: Some(WorkingSet::FirstContact),
            local_available: true,
        },
        Signal {
            time: "11:35",
            source: "rook@pacific",
            category: SignalCategory::SharedIntel,
            headline: "\"Lost my relay before I could trace the uplink.\"",
            body:
                "\"Lost my relay before I could trace the uplink. Dumping what I saw in case somebody is closer.\"",
            opportunity: None,
            local_available: false,
        },
        Signal {
            time: "11:18",
            source: "CELL/MARE-4",
            category: SignalCategory::Request,
            headline:
                "Looking for anyone who can identify convoy routing changes near old I-5.",
            body:
                "Looking for anyone who can identify convoy routing changes near old I-5. No clean telemetry yet.",
            opportunity: None,
            local_available: false,
        },
        Signal {
            time: "11:05",
            source: "BOOTSTRAP LOG",
            category: SignalCategory::BootstrapLog,
            headline: "console-core 0.3.1 signed by slaptijack@, install verified.",
            body:
                "console-core 0.3.1 signed by slaptijack@, install verified. Bootstrap software provenance only \u{2014} no resistance-network traffic.",
            opportunity: None,
            local_available: true,
        },
        Signal {
            time: "10:57",
            source: "PASSIVE SENSOR",
            category: SignalCategory::Anomaly,
            headline: "Burst traffic from an offline municipal control cluster.",
            body:
                "Burst traffic from an offline municipal control cluster. Source and intent unconfirmed.",
            opportunity: None,
            local_available: true,
        },
    ]
}

/// The authored signal stream, newest first.
pub fn authored_signals() -> (signals: &'static [Signal])
    ensures
        signals@ == stream(),
{
    &[
        Signal {
            time: "11:42",
            source: "fabricator node 31B",
            category: SignalCategory::MachineIntercept,
            headline: "Fabricator node 31B resumed local control after mesh loss.",
            body:
                "Fabricator node 31B resumed local control after mesh loss. Auth state inconsistent. Correlated fragments suggest a temporary access window through a captured maintenance drone.",
            opportunity: Some(WorkingSet::FirstContact),
            local_available: true,
        },
        Signal {
            time: "11:35",
            source: "rook@pacific",
            category: SignalCategory::SharedIntel,
            headline: "\"Lost my relay before I could trace the uplink.\"",
            body:
                "\"Lost my relay before I could trace the uplink. Dumping what I saw in case somebody is closer.\"",
            opportunity: None,
            local_available: false,
        },
        Signal {
            time: "11:18",
            source: "CELL/MARE-4",
            category: SignalCategory::Request,
            headline:
                "Looking for anyone who can identify convoy routing changes near old I-5.",
            body:
                "Looking for anyone who can identify convoy routing changes near old I-5. No clean telemetry yet.",
            opportunity: None,
            local_available: false,
        },
        Signal {
            time: "11:05",
            source: "BOOTSTRAP LOG",
            category: SignalCategory::BootstrapLog,
            headline: "console-core 0.3.1 signed by slaptijack@, install verified.",
            body:
                "console-core 0.3.1 signed by slaptijack@, install verified. Bootstrap software provenance only \u{2014} no resistance-network traffic.",
            opportunity: None,
            local_available: true,
        },
        Signal {
            time: "10:57",
            source: "PASSIVE SENSOR",
            category: SignalCategory::Anomaly,
            headline: "Burst traffic from an offline municipal control cluster.",
            body:
                "Burst traffic from an offline municipal control cluster. Source and intent unconfirmed.",
            opportunity: None,
            local_available: true,
        },
    ]
}

/// Whether a console may show the signal. Without a connection, only what is
/// available locally. With one, everything but a signal that offers an
/// opportunity: there is one opportunity, and the connection comes from
/// completing it, so that offering it again would be dishonest.
pub open spec fn legitimate(signal: Signal, connected: bool) -> bool {
    if connected {
        !(signal.opportunity is Some)
    } else {
        signal.local_available
    }
}

/// The signals that a console may show, newest first.
#[verifier::opaque]
pub open spec fn visible(connected: bool) -> Seq<Signal> {
    stream().filter(|signal: Signal| legitimate(signal, connected))
}

/// The signals that a console may show, newest first.
pub fn visible_signals(connected: bool) -> (signals: Vec<&'static Signal>)
    ensures
        signals@.len() == visible(connected).len(),
        forall|i: int| 0 <= i < signals@.len() ==> *#[trigger] signals@[i] == visible(connected)[i],
{
    reveal(visible);
    let all = authored_signals();
    let ghost shown = |signal: Signal| legitimate(signal, connected);
    let mut signals: Vec<&'static Signal> = Vec::new();
    for i in 0..all.len()
        invariant
            all@ == stream(),
            shown == (|signal: Signal| legitimate(signal, connected)),
            signals@.len() == all@.take(i as int).filter(shown).len(),
            forall|j: int|
                0 <= j < signals@.len() ==> *#[trigger] signals@[j] == all@.take(i as int).filter(
                    shown,
                )[j],
    {
        proof {
            reveal(Seq::filter);
            assert(all@.take(i + 1).drop_last() =~= all@.take(i as int));
            assert(all@.take(i + 1).last() == all@[i as int]);
        }
        let signal: &'static Signal = &all[i];
        let show = if connected {
            !signal.is_actionable()
        } else {
            signal.local_available
        };
        if show {
            signals.push(signal);
        }
    }
    assert(all@.take(all@.len() as int) =~= all@);
    signals
}

/// How many signals there are to see, and which of them can be acted on: only
/// the newest one, and only without a connection.
pub proof fn lemma_visible(connected: bool)
    ensures
        visible(connected).len() == if connected {
            4int
        } else {
            3
        },
        forall|i: int|
            0 <= i < visible(connected).len() ==> ((#[trigger] visible(
                connected,
            )[i]).opportunity is Some <==> !connected && i == 0),
{
    reveal(visible);
    let shown = |signal: Signal| legitimate(signal, connected);
    let all = stream();
    reveal_with_fuel(Seq::filter, 6);
    assert(all.drop_last() =~= all.take(4));
    assert(all.take(4).drop_last() =~= all.take(3));
    assert(all.take(3).drop_last() =~= all.take(2));
    assert(all.take(2).drop_last() =~= all.take(1));
    assert(all.take(1).drop_last() =~= all.take(0));
}

/// A dossier of what is known about an opportunity, and how confidently.
#[derive(Debug, Clone, Copy, PartialEq, Eq)]
pub struct TargetDossier {
    pub title: &'static str,
    pub location: &'static str,
    pub confidence_summary: &'static str,
    pub known: &'static [&'static str],
    pub unknown: &'static [&'static str],
    pub opportunity: &'static str,
    pub source: &'static [&'static str],
    pub access: &'static [&'static str],
    pub confidence: &'static [(&'static str, &'static str)],
}

/// The dossier of the one playable opportunity, First Contact.
pub fn first_contact_dossier() -> (dossier: TargetDossier)
    ensures
        dossier.title == "FIRST CONTACT",
        dossier.location == "Automated production facility // sector 7",
        dossier.confidence_summary == "MED/HIGH",
        dossier.known@ == seq![
            "one maintenance drone responds to our control channel",
            "facility map is incomplete",
            "a local network uplink exists somewhere inside",
            "drone endurance is limited",
        ],
        dossier.unknown@ == seq!["uplink location", "complete floor plan", "hazard locations"],
        dossier.opportunity
            == "If the drone reaches the uplink, it opens a connection into the operator network before the access window closes.",
        dossier.source@ == seq!["machine intercept + shared fragment"],
        dossier.access@ == seq!["captured maintenance controller", "compromised satellite feed"],
        dossier.confidence@ == seq![
            ("maintenance access", "HIGH"),
            ("facility layout", "LOW"),
            ("uplink location", "UNKNOWN"),
            ("hazards", "UNKNOWN"),
        ],
{
    TargetDossier {
        title: "FIRST CONTACT",
        location: "Automated production facility // sector 7",
        confidence_summary: "MED/HIGH",
        known: &[
            "one maintenance drone responds to our control channel",
            "facility map is incomplete",
            "a local network uplink exists somewhere inside",
            "drone endurance is limited",
        ],
        unknown: &["uplink location", "complete floor plan", "hazard locations"],
        opportunity:
            "If the drone reaches the uplink, it opens a connection into the operator network before the access window closes.",
        source: &["machine intercept + shared fragment"],
        access: &["captured maintenance controller", "compromised satellite feed"],
        confidence: &[
            ("maintenance access", "HIGH"),
            ("facility layout", "LOW"),
            ("uplink location", "UNKNOWN"),
            ("hazards", "UNKNOWN"),
        ],
    }
}

/// The intentionally incomplete starter controller. It reads the remaining
/// budget, performs one scan, and leaves a clearly marked spot for the player
/// to change; it does not solve First Contact.
pub const STARTER_CONTROLLER: &'static str =
    "local scanned = false\n\nfunction on_tick(observation)\n  local budget = observation.budget_remaining\n  if not scanned and budget > 1 then\n    scanned = true\n    return \"scan\"\n  end\n\n  -- choose what the drone should do using observation\n  return \"wait\"\nend\n";

/// Which signals a console may show, in the order of the stream: without a
/// connection those that are available locally, and with one all but the
/// opportunity that the connection came from.
pub proof fn law_which_signals_are_shown(signal: Signal)
    ensures
        visible(false).contains(signal) <==> stream().contains(signal) && signal.local_available,
        visible(true).contains(signal) <==> stream().contains(signal) && signal.opportunity is None,
        visible(false) == seq![stream()[0], stream()[3], stream()[4]],
        visible(true) == seq![stream()[1], stream()[2], stream()[3], stream()[4]],
{
    reveal(visible);
    let all = stream();
    reveal_with_fuel(Seq::filter, 6);
    assert(all.drop_last() =~= all.take(4));
    assert(all.take(4).drop_last() =~= all.take(3));
    assert(all.take(3).drop_last() =~= all.take(2));
    assert(all.take(2).drop_last() =~= all.take(1));
    assert(all.take(1).drop_last() =~= all.take(0));
    let (local, shared) = (visible(false), visible(true));
    assert(local =~= seq![all[0], all[3], all[4]]);
    assert(shared =~= seq![all[1], all[2], all[3], all[4]]);
    if stream().contains(signal) {
        let i = choose|i: int| 0 <= i < all.len() && all[i] == signal;
        assert(i == 0 || i == 1 || i == 2 || i == 3 || i == 4);
        if signal.local_available {
            assert(local[0] == signal || local[1] == signal || local[2] == signal);
        }
        if signal.opportunity is None {
            assert(shared[0] == signal || shared[1] == signal || shared[2] == signal || shared[3]
                == signal);
        }
    }
    if local.contains(signal) {
        let i = choose|i: int| 0 <= i < local.len() && local[i] == signal;
        assert(all[0] == signal || all[3] == signal || all[4] == signal);
    }
    if shared.contains(signal) {
        let i = choose|i: int| 0 <= i < shared.len() && shared[i] == signal;
        assert(all[1] == signal || all[2] == signal || all[3] == signal || all[4] == signal);
    }
}

/// The authored stream: five signals, the newest first, of which only the first
/// is an opportunity.
pub proof fn law_what_is_authored(i: int)
    requires
        0 <= i < stream().len(),
    ensures
        stream().len() == 5,
        stream()[i].opportunity == if i == 0 {
            Some(WorkingSet::FirstContact)
        } else {
            None
        },
        stream()[i].local_available <==> i == 0 || i == 3 || i == 4,
        stream()[0].time@ == "11:42"@ && stream()[0].category == SignalCategory::MachineIntercept,
        stream()[1].time@ == "11:35"@ && stream()[1].category == SignalCategory::SharedIntel,
        stream()[2].time@ == "11:18"@ && stream()[2].category == SignalCategory::Request,
        stream()[3].time@ == "11:05"@ && stream()[3].category == SignalCategory::BootstrapLog,
        stream()[4].time@ == "10:57"@ && stream()[4].category == SignalCategory::Anomaly,
{
}

} // verus!
