use vstd::prelude::*;

use crate::decimal::{decimal, push_decimal};

verus! {

/// Display priority of a status record, for a status-bar consumer.
#[derive(Clone, Copy, Debug, PartialEq, Eq, Structural)]
pub enum Severity {
    Idle,
    Critical,
    Warning,
    Info,
    Good,
}

/// What a status bar shows for one reading.
#[derive(Clone, Debug)]
pub struct StatusRecord {
    pub severity: Severity,
    pub text: String,
    pub icon: String,
}

/// The severity of a reading; the battery thresholds are fixed product policy.
pub open spec fn severity_of(connected: bool, charging: bool, percentage: int) -> Severity {
    if !connected {
        Severity::Idle
    } else if charging {
        if percentage >= 99 {
            Severity::Good
        } else {
            Severity::Info
        }
    } else if percentage <= 5 {
        Severity::Critical
    } else if percentage <= 15 {
        Severity::Warning
    } else {
        Severity::Info
    }
}

/// The label of a severity.
pub open spec fn severity_name(s: Severity) -> Seq<char> {
    match s {
        Severity::Idle => "Idle"@,
        Severity::Critical => "Critical"@,
        Severity::Warning => "Warning"@,
        Severity::Info => "Info"@,
        Severity::Good => "Good"@,
    }
}

/// The display text: the whole percentage followed by `%`, or the
/// disconnected text.
pub open spec fn status_text(connected: bool, percentage: nat) -> Seq<char> {
    if connected {
        decimal(percentage) + "%"@
    } else {
        "Disconnected"@
    }
}

/// The icon: the charging icon only for a connected, charging headset.
pub open spec fn status_icon(connected: bool, charging: bool) -> Seq<char> {
    if connected && charging {
        "headset_charging"@
    } else {
        "headset"@
    }
}

/// The JSON object a status bar reads for one record.
pub open spec fn record_json(state: Seq<char>, text: Seq<char>, icon: Seq<char>) -> Seq<char> {
    "{\"state\":\""@ + state + "\",\"text\":\""@ + text + "\",\"icon\":\""@ + icon + "\"}"@
}

/// The JSON line of the reading `(connected, percentage, charging)`.
pub open spec fn status_json(connected: bool, percentage: nat, charging: bool) -> Seq<char> {
    record_json(
        severity_name(severity_of(connected, charging, percentage as int)),
        status_text(connected, percentage),
        status_icon(connected, charging),
    )
}

/// A disconnected headset gives one record, whatever its battery reading.
pub proof fn lemma_disconnected_record(percentage: nat, charging: bool)
    ensures
        status_json(false, percentage, charging) == record_json(
            "Idle"@,
            "Disconnected"@,
            "headset"@,
        ),
{
}

impl Severity {
    /// The label of the severity, as a status bar expects it.
    pub fn name(&self) -> (r: &'static str)
        ensures
            r@ == severity_name(*self),
    {
        match self {
            Severity::Idle => "Idle",
            Severity::Critical => "Critical",
            Severity::Warning => "Warning",
            Severity::Info => "Info",
            Severity::Good => "Good",
        }
    }
}

fn severity(connected: bool, charging: bool, percentage: u32) -> (r: Severity)
    ensures
        r == severity_of(connected, charging, percentage as int),
{
    if !connected {
        Severity::Idle
    } else if charging {
        if percentage >= 99 {
            Severity::Good
        } else {
            Severity::Info
        }
    } else if percentage <= 5 {
        Severity::Critical
    } else if percentage <= 15 {
        Severity::Warning
    } else {
        Severity::Info
    }
}

fn text(connected: bool, percentage: u32) -> (r: String)
    ensures
        r@ == status_text(connected, percentage as nat),
{
    if connected {
        let mut s = String::new();
        push_decimal(&mut s, percentage);
        s.append("%");
        s
    } else {
        String::from_str("Disconnected")
    }
}

fn icon(connected: bool, charging: bool) -> (r: &'static str)
    ensures
        r@ == status_icon(connected, charging),
{
    if connected && charging {
        "headset_charging"
    } else {
        "headset"
    }
}

/// Classifies a reading. A disconnected headset is `Idle`, shown as
/// "Disconnected" with the plain icon, whatever the battery says.
pub fn classify(connected: bool, charging: bool, percentage: u32) -> (r: StatusRecord)
    ensures
        r.severity == severity_of(connected, charging, percentage as int),
        r.text@ == status_text(connected, percentage as nat),
        r.icon@ == status_icon(connected, charging),
        !connected ==> r.severity == Severity::Idle && r.text@ == "Disconnected"@ && r.icon@
            == "headset"@,
{
    StatusRecord {
        severity: severity(connected, charging, percentage),
        text: text(connected, percentage),
        icon: String::from_str(icon(connected, charging)),
    }
}

impl StatusRecord {
    /// The record as one JSON object.
    pub fn to_json(&self) -> (r: String)
        ensures
            r@ == record_json(severity_name(self.severity), self.text@, self.icon@),
    {
        let mut s = String::from_str("{\"state\":\"");
        s.append(self.severity.name());
        s.append("\",\"text\":\"");
        s.append(self.text.as_str());
        s.append("\",\"icon\":\"");
        s.append(self.icon.as_str());
        s.append("\"}");
        s
    }
}

/// The JSON status line for a reading.
pub fn get_i3_status(connected: bool, percentage: u32, charging: bool) -> (r: String)
    ensures
        r@ == status_json(connected, percentage as nat, charging),
{
    classify(connected, charging, percentage).to_json()
}

/// The JSON line of a cycle without data: a status bar then shows nothing.
pub fn empty_status() -> (r: String)
    ensures
        r@ == "{\"text\":\"\"}"@,
{
    String::from_str("{\"text\":\"\"}")
}

} // verus!
