//! Laws that relate the live and archived forms of entities, and the size
//! estimates of values that differ in one part.
use crate::calendar::{
    AlertView, ArchivedCalendar, ArchivedCalendarEvent, ArchivedCalendarPreferences, ArchivedCalendarScheduling,
    ArchivedDefaultAlert, ArchivedTimezone, Calendar, CalendarEvent, CalendarPreferences, CalendarScheduling,
    CalendarView, DefaultAlert, EventView, name_lengths, PreferencesView, Timezone, alert_sizes, preference_sizes,
};
use crate::fact::{IndexableAndSerializableObject, IndexableObject};
use crate::identity::{ArchivedIdentity, Identity};
use crate::size::{byte_len, lemma_sum_nonneg, opt_byte_len};
use vstd::prelude::*;

verus! {

/// A calendar and its archived form yield the same facts, in the same order,
/// whenever they hold the same logical content (as `Calendar::archive` makes).
pub proof fn lemma_calendar_forms_agree(live: &Calendar, archived: &ArchivedCalendar)
    requires
        live@ == archived@,
    ensures
        live.spec_index_values() == archived.spec_index_values(),
{
}

/// An event and its archived form yield the same facts when they hold the
/// same logical content.
pub proof fn lemma_event_forms_agree(live: &CalendarEvent, archived: &ArchivedCalendarEvent)
    requires
        live@ == archived@,
    ensures
        live.spec_index_values() == archived.spec_index_values(),
{
}

/// A scheduling message and its archived form yield the same facts when they
/// hold the same values.
pub proof fn lemma_scheduling_forms_agree(live: &CalendarScheduling, archived: &ArchivedCalendarScheduling)
    requires
        live@ == archived@,
    ensures
        live.spec_index_values() == archived.spec_index_values(),
{
}

/// An identity and any archived identity yield the same facts.
pub proof fn lemma_identity_forms_agree(live: &Identity, archived: &ArchivedIdentity)
    ensures
        live.spec_index_values() == archived.spec_index_values(),
{
}

/// The live and archived forms of preferences, time zones and default alerts
/// have the same size estimate when they hold the same logical content.
pub proof fn lemma_size_forms_agree(
    p: &CalendarPreferences,
    ap: &ArchivedCalendarPreferences,
    t: &Timezone,
    at: &ArchivedTimezone,
    d: &DefaultAlert,
    ad: &ArchivedDefaultAlert,
)
    requires
        p@ == ap@,
        t@ == at@,
        d@ == ad@,
    ensures
        p@.spec_size() == ap@.spec_size(),
        t@.spec_size() == at@.spec_size(),
        d@.spec_size() == ad@.spec_size(),
{
}

/// The size estimate of preferences never decreases when one of their
/// strings grows and everything else stays as it is.
pub proof fn lemma_preferences_size_monotonic(a: PreferencesView, b: PreferencesView)
    requires
        a.time_zone == b.time_zone,
        byte_len(a.name) <= byte_len(b.name),
        opt_byte_len(a.description) <= opt_byte_len(b.description),
        opt_byte_len(a.color) <= opt_byte_len(b.color),
    ensures
        a.spec_size() <= b.spec_size(),
{
}

/// The size estimate of a default alert never decreases when its id grows
/// and its alert stays as it is.
pub proof fn lemma_alert_size_monotonic(a: AlertView, b: AlertView)
    requires
        a.alert == b.alert,
        byte_len(a.id) <= byte_len(b.id),
    ensures
        a.spec_size() <= b.spec_size(),
{
}

/// The quota of a calendar never decreases when its name grows and
/// everything else stays as it is.
pub proof fn lemma_calendar_quota_monotonic(a: CalendarView, b: CalendarView)
    requires
        a.acls == b.acls,
        a.dead_properties == b.dead_properties,
        a.preferences == b.preferences,
        a.default_alerts == b.default_alerts,
        byte_len(a.name) <= byte_len(b.name),
    ensures
        a.quota() <= b.quota(),
{
    lemma_sum_nonneg(preference_sizes(a.preferences));
    lemma_sum_nonneg(alert_sizes(a.default_alerts));
}

/// Whether a type is versioned is fixed by the type: calendars and events
/// are, identities and scheduling messages are not.
pub proof fn lemma_versioning_by_type()
    ensures
        <Calendar as IndexableAndSerializableObject>::spec_is_versioned(),
        <CalendarEvent as IndexableAndSerializableObject>::spec_is_versioned(),
        !<Identity as IndexableAndSerializableObject>::spec_is_versioned(),
        !<CalendarScheduling as IndexableAndSerializableObject>::spec_is_versioned(),
{
}

/// The quota of an event never decreases when its display name grows and
/// everything else stays as it is.
pub proof fn lemma_event_quota_monotonic(a: EventView, b: EventView)
    requires
        a.uids == b.uids,
        a.dead_properties == b.dead_properties,
        a.names == b.names,
        a.size == b.size,
        opt_byte_len(a.display_name) <= opt_byte_len(b.display_name),
    ensures
        a.quota() <= b.quota(),
{
    lemma_sum_nonneg(name_lengths(a.names));
}

} // verus!
