//! Calendars, calendar events and scheduling messages, in live and archived
//! form, with their size estimates and index facts.
use crate::collection::{CalendarField, SyncCollection};
use crate::fact::{
    copy_grants, three_facts, AclGrant, Fact, IndexKey, IndexValue, IndexableAndSerializableObject,
    IndexableObject, KeyView,
};
use crate::size::{
    add_capped, byte_len, lemma_sum_nonneg, lemma_sum_step, opt_byte_len, opt_str_len, saturate, saturate_u32, str_len,
    sum_sizes,
};
use vstd::prelude::*;

verus! {

/// What this layer reads of an iCalendar object: its UID values, in order,
/// and the size estimate that the iCalendar layer computed for it.
pub struct ICalendar {
    pub uids: Vec<String>,
    pub size: usize,
}

pub struct ICalendarView {
    pub uids: Seq<Seq<char>>,
    pub size: usize,
}

impl View for ICalendar {
    type V = ICalendarView;

    open spec fn view(&self) -> ICalendarView {
        ICalendarView { uids: self.uids@.map_values(|s: String| s@), size: self.size }
    }
}

/// WebDAV properties that a client stored without this server knowing them;
/// this layer reads only their size estimate.
pub struct DeadProperty {
    pub size: usize,
}

/// The time zone of a calendar.
pub enum Timezone {
    /// A zone of the IANA database, by its identifier.
    IANA(u16),
    /// A zone defined by its own iCalendar component.
    Custom(ICalendar),
    Default,
}

/// The archived form of a [`Timezone`]: it borrows what it refers to.
pub enum ArchivedTimezone<'a> {
    IANA(u16),
    Custom(&'a ICalendar),
    Default,
}

pub enum TimezoneView {
    IANA(u16),
    Custom(ICalendarView),
    Default,
}

impl TimezoneView {
    /// A zone by name costs two units whatever the name; a custom zone costs
    /// its own size.
    pub open spec fn spec_size(self) -> nat {
        match self {
            TimezoneView::IANA(_) => 2,
            TimezoneView::Custom(c) => c.size as nat,
            TimezoneView::Default => 0,
        }
    }
}

impl View for Timezone {
    type V = TimezoneView;

    open spec fn view(&self) -> TimezoneView {
        match self {
            Timezone::IANA(id) => TimezoneView::IANA(*id),
            Timezone::Custom(c) => TimezoneView::Custom(c@),
            Timezone::Default => TimezoneView::Default,
        }
    }
}

impl<'a> View for ArchivedTimezone<'a> {
    type V = TimezoneView;

    open spec fn view(&self) -> TimezoneView {
        match self {
            ArchivedTimezone::IANA(id) => TimezoneView::IANA(*id),
            ArchivedTimezone::Custom(c) => TimezoneView::Custom(c@),
            ArchivedTimezone::Default => TimezoneView::Default,
        }
    }
}

impl Timezone {
    pub fn size(&self) -> (r: usize)
        ensures
            r == self@.spec_size(),
    {
        match self {
            Timezone::IANA(_) => 2,
            Timezone::Custom(c) => c.size,
            Timezone::Default => 0,
        }
    }

    pub fn archive(&self) -> (r: ArchivedTimezone<'_>)
        ensures
            r@ == self@,
    {
        match self {
            Timezone::IANA(id) => ArchivedTimezone::IANA(*id),
            Timezone::Custom(c) => ArchivedTimezone::Custom(c),
            Timezone::Default => ArchivedTimezone::Default,
        }
    }
}

impl<'a> ArchivedTimezone<'a> {
    pub fn size(&self) -> (r: usize)
        ensures
            r == self@.spec_size(),
    {
        match self {
            ArchivedTimezone::IANA(_) => 2,
            ArchivedTimezone::Custom(c) => c.size,
            ArchivedTimezone::Default => 0,
        }
    }
}

/// How a calendar is presented to one user.
pub struct CalendarPreferences {
    pub account_id: u32,
    pub name: String,
    pub description: Option<String>,
    pub color: Option<String>,
    pub time_zone: Timezone,
}

/// The archived form of [`CalendarPreferences`].
pub struct ArchivedCalendarPreferences<'a> {
    pub account_id: u32,
    pub name: &'a str,
    pub description: Option<&'a str>,
    pub color: Option<&'a str>,
    pub time_zone: ArchivedTimezone<'a>,
}

pub struct PreferencesView {
    pub account_id: u32,
    pub name: Seq<char>,
    pub description: Option<Seq<char>>,
    pub color: Option<Seq<char>>,
    pub time_zone: TimezoneView,
}

/// The view of an optional owned string.
pub open spec fn opt_string_view(s: Option<String>) -> Option<Seq<char>> {
    match s {
        Some(t) => Some(t@),
        None => None,
    }
}

/// The view of an optional borrowed string.
pub open spec fn opt_str_view(s: Option<&str>) -> Option<Seq<char>> {
    match s {
        Some(t) => Some(t@),
        None => None,
    }
}

/// The size estimate of preferences with string fields of the given byte
/// lengths and the given time-zone cost, capped at `usize::MAX`.
pub open spec fn preferences_size(name: int, description: int, color: int, time_zone: int) -> usize {
    saturate(name + description + color + time_zone, usize::MAX as int) as usize
}

impl PreferencesView {
    pub open spec fn spec_size(self) -> usize {
        preferences_size(
            byte_len(self.name) as int,
            opt_byte_len(self.description) as int,
            opt_byte_len(self.color) as int,
            self.time_zone.spec_size() as int,
        )
    }
}

impl View for CalendarPreferences {
    type V = PreferencesView;

    open spec fn view(&self) -> PreferencesView {
        PreferencesView {
            account_id: self.account_id,
            name: self.name@,
            description: opt_string_view(self.description),
            color: opt_string_view(self.color),
            time_zone: self.time_zone@,
        }
    }
}

impl<'a> View for ArchivedCalendarPreferences<'a> {
    type V = PreferencesView;

    open spec fn view(&self) -> PreferencesView {
        PreferencesView {
            account_id: self.account_id,
            name: self.name@,
            description: opt_str_view(self.description),
            color: opt_str_view(self.color),
            time_zone: self.time_zone@,
        }
    }
}

/// Borrows an optional owned string.
fn opt_as_str(s: &Option<String>) -> (r: Option<&str>)
    ensures
        opt_str_view(r) == opt_string_view(*s),
{
    match s {
        Some(t) => Some(t.as_str()),
        None => None,
    }
}

impl CalendarPreferences {
    pub fn size(&self) -> (r: usize)
        ensures
            r == self@.spec_size(),
    {
        str_len(self.name.as_str()).saturating_add(opt_str_len(opt_as_str(&self.description))).saturating_add(
            opt_str_len(opt_as_str(&self.color)),
        ).saturating_add(self.time_zone.size())
    }

    pub fn archive(&self) -> (r: ArchivedCalendarPreferences<'_>)
        ensures
            r@ == self@,
    {
        ArchivedCalendarPreferences {
            account_id: self.account_id,
            name: self.name.as_str(),
            description: opt_as_str(&self.description),
            color: opt_as_str(&self.color),
            time_zone: self.time_zone.archive(),
        }
    }
}

impl<'a> ArchivedCalendarPreferences<'a> {
    pub fn size(&self) -> (r: usize)
        ensures
            r == self@.spec_size(),
    {
        str_len(self.name).saturating_add(opt_str_len(self.description)).saturating_add(
            opt_str_len(self.color),
        ).saturating_add(self.time_zone.size())
    }
}

/// An alert that applies to the events of a calendar by default.
pub struct DefaultAlert {
    pub account_id: u32,
    pub id: String,
    pub alert: ICalendar,
}

/// The archived form of a [`DefaultAlert`].
pub struct ArchivedDefaultAlert<'a> {
    pub account_id: u32,
    pub id: &'a str,
    pub alert: &'a ICalendar,
}

pub struct AlertView {
    pub account_id: u32,
    pub id: Seq<char>,
    pub alert: ICalendarView,
}

impl AlertView {
    pub open spec fn spec_size(self) -> usize {
        saturate(self.alert.size + byte_len(self.id), usize::MAX as int) as usize
    }
}

impl View for DefaultAlert {
    type V = AlertView;

    open spec fn view(&self) -> AlertView {
        AlertView { account_id: self.account_id, id: self.id@, alert: self.alert@ }
    }
}

impl<'a> View for ArchivedDefaultAlert<'a> {
    type V = AlertView;

    open spec fn view(&self) -> AlertView {
        AlertView { account_id: self.account_id, id: self.id@, alert: self.alert@ }
    }
}

impl DefaultAlert {
    pub fn size(&self) -> (r: usize)
        ensures
            r == self@.spec_size(),
    {
        self.alert.size.saturating_add(str_len(self.id.as_str()))
    }

    pub fn archive(&self) -> (r: ArchivedDefaultAlert<'_>)
        ensures
            r@ == self@,
    {
        ArchivedDefaultAlert { account_id: self.account_id, id: self.id.as_str(), alert: &self.alert }
    }
}

impl<'a> ArchivedDefaultAlert<'a> {
    pub fn size(&self) -> (r: usize)
        ensures
            r == self@.spec_size(),
    {
        self.alert.size.saturating_add(str_len(self.id))
    }
}

/// A calendar: a container of events, shared through its ACL.
pub struct Calendar {
    pub name: String,
    pub acls: Vec<AclGrant>,
    pub dead_properties: DeadProperty,
    pub preferences: Vec<CalendarPreferences>,
    pub default_alerts: Vec<DefaultAlert>,
}

/// The archived form of a [`Calendar`].
pub struct ArchivedCalendar<'a> {
    pub name: &'a str,
    pub acls: &'a [AclGrant],
    pub dead_properties: &'a DeadProperty,
    pub preferences: Vec<ArchivedCalendarPreferences<'a>>,
    pub default_alerts: Vec<ArchivedDefaultAlert<'a>>,
}

pub struct CalendarView {
    pub name: Seq<char>,
    pub acls: Seq<AclGrant>,
    pub dead_properties: usize,
    pub preferences: Seq<PreferencesView>,
    pub default_alerts: Seq<AlertView>,
}

pub open spec fn preference_sizes(s: Seq<PreferencesView>) -> Seq<usize> {
    s.map_values(|p: PreferencesView| p.spec_size())
}

pub open spec fn alert_sizes(s: Seq<AlertView>) -> Seq<usize> {
    s.map_values(|a: AlertView| a.spec_size())
}

impl CalendarView {
    /// The quota a calendar uses: its dead properties, its preferences, its
    /// default alerts and its name, capped at `u32::MAX`.
    pub open spec fn quota(self) -> u32 {
        saturate(
            self.dead_properties + sum_sizes(preference_sizes(self.preferences)) + sum_sizes(
                alert_sizes(self.default_alerts),
            ) + byte_len(self.name),
            u32::MAX as int,
        ) as u32
    }

    pub open spec fn facts(self) -> Seq<Fact> {
        seq![
            Fact::Acl(self.acls),
            Fact::Quota(self.quota()),
            Fact::LogContainer(SyncCollection::Calendar),
        ]
    }
}

impl View for Calendar {
    type V = CalendarView;

    open spec fn view(&self) -> CalendarView {
        CalendarView {
            name: self.name@,
            acls: self.acls@,
            dead_properties: self.dead_properties.size,
            preferences: self.preferences@.map_values(|p: CalendarPreferences| p@),
            default_alerts: self.default_alerts@.map_values(|a: DefaultAlert| a@),
        }
    }
}

impl<'a> View for ArchivedCalendar<'a> {
    type V = CalendarView;

    open spec fn view(&self) -> CalendarView {
        CalendarView {
            name: self.name@,
            acls: self.acls@,
            dead_properties: self.dead_properties.size,
            preferences: self.preferences@.map_values(|p: ArchivedCalendarPreferences<'a>| p@),
            default_alerts: self.default_alerts@.map_values(|a: ArchivedDefaultAlert<'a>| a@),
        }
    }
}

impl Calendar {
    /// The quota that this calendar uses.
    pub fn quota(&self) -> (r: u32)
        ensures
            r == self@.quota(),
    {
        let ghost v = self@;
        let ghost ps = preference_sizes(v.preferences);
        let ghost als = alert_sizes(v.default_alerts);
        let mut used: u32 = saturate_u32(self.dead_properties.size);
        let mut i: usize = 0;
        while i < self.preferences.len()
            invariant
                v == self@,
                ps == preference_sizes(v.preferences),
                i <= ps.len() == self.preferences@.len(),
                used == saturate(v.dead_properties + sum_sizes(ps.take(i as int)), u32::MAX as int),
            decreases self.preferences@.len() - i,
        {
            proof {
                lemma_sum_step(v.dead_properties as int, ps, i as int, used);
            }
            used = add_capped(used, self.preferences[i].size());
            i = i + 1;
        }
        proof {
            assert(ps.take(i as int) =~= ps);
            lemma_sum_nonneg(ps);
            assert(als.take(0) =~= Seq::<usize>::empty());
        }
        let ghost base = v.dead_properties + sum_sizes(ps);
        let mut j: usize = 0;
        while j < self.default_alerts.len()
            invariant
                v == self@,
                als == alert_sizes(v.default_alerts),
                base == v.dead_properties + sum_sizes(preference_sizes(v.preferences)),
                base >= 0,
                j <= als.len() == self.default_alerts@.len(),
                used == saturate(base + sum_sizes(als.take(j as int)), u32::MAX as int),
            decreases self.default_alerts@.len() - j,
        {
            proof {
                lemma_sum_step(base, als, j as int, used);
            }
            used = add_capped(used, self.default_alerts[j].size());
            j = j + 1;
        }
        proof {
            assert(als.take(j as int) =~= als);
            lemma_sum_nonneg(als);
        }
        add_capped(used, str_len(self.name.as_str()))
    }

    pub fn archive(&self) -> (r: ArchivedCalendar<'_>)
        ensures
            r@ == self@,
    {
        let mut preferences: Vec<ArchivedCalendarPreferences<'_>> = Vec::new();
        let mut i: usize = 0;
        while i < self.preferences.len()
            invariant
                i <= self.preferences@.len(),
                preferences@.len() == i,
                forall|k: int| 0 <= k < i ==> #[trigger] preferences@[k]@ == self.preferences@[k]@,
            decreases self.preferences@.len() - i,
        {
            preferences.push(self.preferences[i].archive());
            i = i + 1;
        }
        let mut default_alerts: Vec<ArchivedDefaultAlert<'_>> = Vec::new();
        let mut j: usize = 0;
        while j < self.default_alerts.len()
            invariant
                j <= self.default_alerts@.len(),
                default_alerts@.len() == j,
                forall|k: int| 0 <= k < j ==> #[trigger] default_alerts@[k]@ == self.default_alerts@[k]@,
            decreases self.default_alerts@.len() - j,
        {
            default_alerts.push(self.default_alerts[j].archive());
            j = j + 1;
        }
        let r = ArchivedCalendar {
            name: self.name.as_str(),
            acls: self.acls.as_slice(),
            dead_properties: &self.dead_properties,
            preferences,
            default_alerts,
        };
        proof {
            assert(r@.preferences =~= self@.preferences);
            assert(r@.default_alerts =~= self@.default_alerts);
        }
        r
    }
}

impl IndexableObject for Calendar {
    open spec fn spec_index_values(&self) -> Seq<Fact> {
        self@.facts()
    }

    fn index_values(&self) -> (r: Vec<IndexValue>) {
        three_facts(
            IndexValue::Acl { value: copy_grants(self.acls.as_slice()) },
            IndexValue::Quota { used: self.quota() },
            IndexValue::LogContainer { sync_collection: SyncCollection::Calendar },
        )
    }
}

impl IndexableAndSerializableObject for Calendar {
    open spec fn spec_is_versioned() -> bool {
        true
    }

    fn is_versioned() -> (r: bool) {
        true
    }
}

impl<'a> ArchivedCalendar<'a> {
    /// The quota that this calendar uses.
    pub fn quota(&self) -> (r: u32)
        ensures
            r == self@.quota(),
    {
        let ghost v = self@;
        let ghost ps = preference_sizes(v.preferences);
        let ghost als = alert_sizes(v.default_alerts);
        let mut used: u32 = saturate_u32(self.dead_properties.size);
        let mut i: usize = 0;
        while i < self.preferences.len()
            invariant
                v == self@,
                ps == preference_sizes(v.preferences),
                i <= ps.len() == self.preferences@.len(),
                used == saturate(v.dead_properties + sum_sizes(ps.take(i as int)), u32::MAX as int),
            decreases self.preferences@.len() - i,
        {
            proof {
                lemma_sum_step(v.dead_properties as int, ps, i as int, used);
            }
            used = add_capped(used, self.preferences[i].size());
            i = i + 1;
        }
        proof {
            assert(ps.take(i as int) =~= ps);
            lemma_sum_nonneg(ps);
            assert(als.take(0) =~= Seq::<usize>::empty());
        }
        let ghost base = v.dead_properties + sum_sizes(ps);
        let mut j: usize = 0;
        while j < self.default_alerts.len()
            invariant
                v == self@,
                als == alert_sizes(v.default_alerts),
                base == v.dead_properties + sum_sizes(preference_sizes(v.preferences)),
                base >= 0,
                j <= als.len() == self.default_alerts@.len(),
                used == saturate(base + sum_sizes(als.take(j as int)), u32::MAX as int),
            decreases self.default_alerts@.len() - j,
        {
            proof {
                lemma_sum_step(base, als, j as int, used);
            }
            used = add_capped(used, self.default_alerts[j].size());
            j = j + 1;
        }
        proof {
            assert(als.take(j as int) =~= als);
            lemma_sum_nonneg(als);
        }
        add_capped(used, str_len(self.name))
    }
}

impl<'a> IndexableObject for ArchivedCalendar<'a> {
    open spec fn spec_index_values(&self) -> Seq<Fact> {
        self@.facts()
    }

    fn index_values(&self) -> (r: Vec<IndexValue>) {
        three_facts(
            IndexValue::Acl { value: copy_grants(self.acls) },
            IndexValue::Quota { used: self.quota() },
            IndexValue::LogContainer { sync_collection: SyncCollection::Calendar },
        )
    }
}

/// An alternative name of an event, as one calendar holding it calls it.
pub struct CalendarEventName {
    pub name: String,
    pub parent_id: u32,
}

/// An event: an item of one or more calendars.
pub struct CalendarEvent {
    pub event: ICalendar,
    pub dead_properties: DeadProperty,
    pub display_name: Option<String>,
    pub names: Vec<CalendarEventName>,
    /// The declared size of the event's iCalendar data.
    pub size: u32,
}

/// The archived form of a [`CalendarEvent`].
pub struct ArchivedCalendarEvent<'a> {
    pub event: &'a ICalendar,
    pub dead_properties: &'a DeadProperty,
    pub display_name: Option<&'a str>,
    pub names: &'a [CalendarEventName],
    pub size: u32,
}

pub struct EventView {
    pub uids: Seq<Seq<char>>,
    pub dead_properties: usize,
    pub display_name: Option<Seq<char>>,
    pub names: Seq<Seq<char>>,
    pub size: u32,
}

/// The byte lengths of a list of names.
pub open spec fn name_lengths(s: Seq<Seq<char>>) -> Seq<usize> {
    s.map_values(|n: Seq<char>| byte_len(n))
}

/// The names of a list of event names.
pub open spec fn names_of(s: Seq<CalendarEventName>) -> Seq<Seq<char>> {
    s.map_values(|n: CalendarEventName| n.name@)
}

impl EventView {
    /// The index key of the event's first UID, if it has one.
    pub open spec fn uid_key(self) -> KeyView {
        if self.uids.len() > 0 {
            KeyView::Text(self.uids[0])
        } else {
            KeyView::Absent
        }
    }

    /// The quota an event uses: its dead properties, display name, alternative
    /// names and declared size, capped at `u32::MAX`.
    pub open spec fn quota(self) -> u32 {
        saturate(
            self.dead_properties + opt_byte_len(self.display_name) + sum_sizes(name_lengths(self.names))
                + self.size,
            u32::MAX as int,
        ) as u32
    }

    pub open spec fn facts(self) -> Seq<Fact> {
        seq![
            Fact::Index(CalendarField::Uid.spec_id(), self.uid_key()),
            Fact::Quota(self.quota()),
            Fact::LogItem(SyncCollection::Calendar, None),
        ]
    }
}

impl View for CalendarEvent {
    type V = EventView;

    open spec fn view(&self) -> EventView {
        EventView {
            uids: self.event@.uids,
            dead_properties: self.dead_properties.size,
            display_name: opt_string_view(self.display_name),
            names: names_of(self.names@),
            size: self.size,
        }
    }
}

impl<'a> View for ArchivedCalendarEvent<'a> {
    type V = EventView;

    open spec fn view(&self) -> EventView {
        EventView {
            uids: self.event@.uids,
            dead_properties: self.dead_properties.size,
            display_name: opt_str_view(self.display_name),
            names: names_of(self.names@),
            size: self.size,
        }
    }
}

/// The index key of the first UID of an iCalendar object.
fn first_uid(c: &ICalendar) -> (r: IndexKey)
    ensures
        r@ == (if c@.uids.len() > 0 {
            KeyView::Text(c@.uids[0])
        } else {
            KeyView::Absent
        }),
{
    if c.uids.len() > 0 {
        IndexKey::Text(c.uids[0].clone())
    } else {
        IndexKey::Absent
    }
}

/// The quota of an event with the given parts.
fn event_quota(dead_properties: usize, display_name: Option<&str>, names: &[CalendarEventName], size: u32) -> (r: u32)
    ensures
        r == saturate(
            dead_properties + opt_byte_len(opt_str_view(display_name)) + sum_sizes(name_lengths(names_of(names@)))
                + size,
            u32::MAX as int,
        ),
{
    let ghost ls = name_lengths(names_of(names@));
    let mut used: u32 = add_capped(saturate_u32(dead_properties), opt_str_len(display_name));
    let ghost base = dead_properties + opt_byte_len(opt_str_view(display_name));
    proof {
        assert(ls.take(0) =~= Seq::<usize>::empty());
    }
    let mut i: usize = 0;
    while i < names.len()
        invariant
            ls == name_lengths(names_of(names@)),
            base == dead_properties + opt_byte_len(opt_str_view(display_name)),
            i <= ls.len() == names@.len(),
            used == saturate(base + sum_sizes(ls.take(i as int)), u32::MAX as int),
        decreases names@.len() - i,
    {
        proof {
            lemma_sum_step(base, ls, i as int, used);
        }
        used = add_capped(used, str_len(names[i].name.as_str()));
        i = i + 1;
    }
    proof {
        assert(ls.take(i as int) =~= ls);
        lemma_sum_nonneg(ls);
    }
    used.saturating_add(size)
}

impl CalendarEvent {
    pub fn archive(&self) -> (r: ArchivedCalendarEvent<'_>)
        ensures
            r@ == self@,
    {
        ArchivedCalendarEvent {
            event: &self.event,
            dead_properties: &self.dead_properties,
            display_name: opt_as_str(&self.display_name),
            names: self.names.as_slice(),
            size: self.size,
        }
    }
}

impl IndexableObject for CalendarEvent {
    open spec fn spec_index_values(&self) -> Seq<Fact> {
        self@.facts()
    }

    fn index_values(&self) -> (r: Vec<IndexValue>) {
        three_facts(
            IndexValue::Index { field: CalendarField::Uid.id(), value: first_uid(&self.event) },
            IndexValue::Quota {
                used: event_quota(
                    self.dead_properties.size,
                    opt_as_str(&self.display_name),
                    self.names.as_slice(),
                    self.size,
                ),
            },
            IndexValue::LogItem { sync_collection: SyncCollection::Calendar, prefix: None },
        )
    }
}

impl<'a> IndexableObject for ArchivedCalendarEvent<'a> {
    open spec fn spec_index_values(&self) -> Seq<Fact> {
        self@.facts()
    }

    fn index_values(&self) -> (r: Vec<IndexValue>) {
        three_facts(
            IndexValue::Index { field: CalendarField::Uid.id(), value: first_uid(self.event) },
            IndexValue::Quota {
                used: event_quota(self.dead_properties.size, self.display_name, self.names, self.size),
            },
            IndexValue::LogItem { sync_collection: SyncCollection::Calendar, prefix: None },
        )
    }
}

impl IndexableAndSerializableObject for CalendarEvent {
    open spec fn spec_is_versioned() -> bool {
        true
    }

    fn is_versioned() -> (r: bool) {
        true
    }
}

/// A scheduling message (an iTIP request or reply) received for an account.
pub struct CalendarScheduling {
    /// The declared size of the message.
    pub size: u32,
    /// When the message was received, in seconds since the Unix epoch.
    pub created: i64,
}

/// The archived form of a [`CalendarScheduling`].
pub struct ArchivedCalendarScheduling {
    pub size: u32,
    pub created: i64,
}

pub struct SchedulingView {
    pub size: u32,
    pub created: i64,
}

impl SchedulingView {
    pub open spec fn facts(self) -> Seq<Fact> {
        seq![
            Fact::Quota(self.size),
            Fact::Index(CalendarField::Created.spec_id(), KeyView::Integer(self.created)),
            Fact::LogItem(SyncCollection::CalendarScheduling, None),
        ]
    }
}

impl View for CalendarScheduling {
    type V = SchedulingView;

    open spec fn view(&self) -> SchedulingView {
        SchedulingView { size: self.size, created: self.created }
    }
}

impl View for ArchivedCalendarScheduling {
    type V = SchedulingView;

    open spec fn view(&self) -> SchedulingView {
        SchedulingView { size: self.size, created: self.created }
    }
}

impl CalendarScheduling {
    pub fn archive(&self) -> (r: ArchivedCalendarScheduling)
        ensures
            r@ == self@,
    {
        ArchivedCalendarScheduling { size: self.size, created: self.created }
    }
}

impl IndexableObject for CalendarScheduling {
    open spec fn spec_index_values(&self) -> Seq<Fact> {
        self@.facts()
    }

    fn index_values(&self) -> (r: Vec<IndexValue>) {
        three_facts(
            IndexValue::Quota { used: self.size },
            IndexValue::Index { field: CalendarField::Created.id(), value: IndexKey::Integer(self.created) },
            IndexValue::LogItem { sync_collection: SyncCollection::CalendarScheduling, prefix: None },
        )
    }
}

impl IndexableObject for ArchivedCalendarScheduling {
    open spec fn spec_index_values(&self) -> Seq<Fact> {
        self@.facts()
    }

    fn index_values(&self) -> (r: Vec<IndexValue>) {
        three_facts(
            IndexValue::Quota { used: self.size },
            IndexValue::Index { field: CalendarField::Created.id(), value: IndexKey::Integer(self.created) },
            IndexValue::LogItem { sync_collection: SyncCollection::CalendarScheduling, prefix: None },
        )
    }
}

impl IndexableAndSerializableObject for CalendarScheduling {
    open spec fn spec_is_versioned() -> bool {
        false
    }

    fn is_versioned() -> (r: bool) {
        false
    }
}

} // verus!
