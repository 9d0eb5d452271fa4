//! Disk events and the grammar of the lines that report them.

use crate::error::{Error, ErrorView};
use crate::pattern::{captures, group, group_text, regex_captures, Groups};
use crate::text::same_text;
use crate::time::{
    format_time, formatted_time, local_now, parse_time, parsed_time, Timestamp, APPLE_FORMAT,
};
use vstd::prelude::*;

verus! {

/// What the monitored command prints where a field has no value.
pub const SENTINEL: &'static str = "<null>";

/// What the monitored command prints in place of a disk's name where the
/// disk has none.
pub const NO_BSD_NAME: &'static str = "(no BSD name)";

/// The head of a line: three stars and the event's name, the subject in
/// round brackets, an optional comment and the time.
pub const HEADER_PATTERN: &'static str =
    r"^[*]{3}(\w+)\s*\('?([^,']+)'?.*?\)\s*(Comment=(\S+))?\s*Time=(\S+)";

/// The volume's path, between single quotes.
pub const VOLUME_PATH_PATTERN: &'static str = r"DAVolumePath\s*=\s*('([^']+)')";

/// The volume's kind, between single quotes.
pub const VOLUME_KIND_PATTERN: &'static str = r"DAVolumeKind\s*=\s*('([^']+)')";

/// The volume's name, between single quotes.
pub const VOLUME_NAME_PATTERN: &'static str = r"DAVolumeName\s*=\s*('([^']+)')";

/// An event as plain values.
pub struct EventView {
    pub name: Seq<char>,
    pub time: Timestamp,
    pub bsd_name: Option<Seq<char>>,
    pub volume_path: Option<Seq<char>>,
    pub volume_kind: Option<Seq<char>>,
    pub volume_name: Option<Seq<char>>,
    pub comment: Option<Seq<char>>,
}

impl EventView {
    /// The event that says nothing: no name, no optional field.
    pub open spec fn blank(time: Timestamp) -> EventView {
        EventView {
            name: Seq::empty(),
            time,
            bsd_name: None,
            volume_path: None,
            volume_kind: None,
            volume_name: None,
            comment: None,
        }
    }

    /// No optional field holds the sentinel: a field without a value is
    /// absent.
    pub open spec fn sentinel_free(self) -> bool {
        &&& self.bsd_name != Some(SENTINEL@)
        &&& self.volume_path != Some(SENTINEL@)
        &&& self.volume_kind != Some(SENTINEL@)
        &&& self.volume_name != Some(SENTINEL@)
        &&& self.comment != Some(SENTINEL@)
    }
}

/// A field's value as an event keeps it: absent where the line holds the
/// sentinel.
pub open spec fn present(value: Seq<char>) -> Option<Seq<char>> {
    if value == SENTINEL@ {
        None
    } else {
        Some(value)
    }
}

/// What the head of a line says.
pub struct Header {
    pub name: Seq<char>,
    pub bsd_name: Option<Seq<char>>,
    pub comment: Option<Seq<char>>,
    pub time: Seq<char>,
}

/// The head that a search with [`HEADER_PATTERN`] found: the name is group
/// 1, the subject group 2, the comment group 4, the time group 5. A subject
/// that says that the disk has no name gives no name. Without a match, or
/// without one of name, subject and time, there is no head.
pub open spec fn header_of(found: Option<Groups>) -> Option<Header> {
    match found {
        Some(groups) => match (group(groups, 1), group(groups, 2), group(groups, 5)) {
            (Some(name), Some(subject), Some(time)) => Some(
                Header {
                    name,
                    bsd_name: if subject == NO_BSD_NAME@ {
                        None
                    } else {
                        Some(subject)
                    },
                    comment: group(groups, 4),
                    time,
                },
            ),
            _ => None,
        },
        None => None,
    }
}

/// The value that a search with one of the volume patterns found: group 2,
/// the text between the quotes.
pub open spec fn value_of(found: Option<Groups>) -> Option<Seq<char>> {
    match found {
        Some(groups) => group(groups, 2),
        None => None,
    }
}

/// The head of `line`.
pub open spec fn line_header(line: Seq<char>) -> Option<Header> {
    header_of(regex_captures(HEADER_PATTERN@, line))
}

/// The value that `line` gives for the field that `pattern` finds, absent
/// where it is the sentinel.
pub open spec fn line_field(pattern: Seq<char>, line: Seq<char>) -> Option<Seq<char>> {
    match value_of(regex_captures(pattern, line)) {
        Some(value) => present(value),
        None => None,
    }
}

/// `line` has a head whose time token does not follow [`APPLE_FORMAT`].
pub open spec fn time_unreadable(line: Seq<char>) -> bool {
    line_header(line) matches Some(header) && parsed_time(header.time, APPLE_FORMAT@) is None
}

/// The event that `line` reports. Where the line has no head, the event has
/// no name and the time `fallback`; each field that the line does not give
/// is absent.
pub open spec fn line_event(line: Seq<char>, fallback: Timestamp) -> EventView {
    let volume_path = line_field(VOLUME_PATH_PATTERN@, line);
    let volume_kind = line_field(VOLUME_KIND_PATTERN@, line);
    let volume_name = line_field(VOLUME_NAME_PATTERN@, line);
    match line_header(line) {
        Some(header) => EventView {
            name: header.name,
            time: match parsed_time(header.time, APPLE_FORMAT@) {
                Some(time) => time,
                None => fallback,
            },
            bsd_name: match header.bsd_name {
                Some(bsd_name) => present(bsd_name),
                None => None,
            },
            volume_path,
            volume_kind,
            volume_name,
            comment: match header.comment {
                Some(comment) => present(comment),
                None => None,
            },
        },
        None => EventView {
            volume_path,
            volume_kind,
            volume_name,
            ..EventView::blank(fallback)
        },
    }
}

/// The text of `time` in [`APPLE_FORMAT`]; empty where chrono writes none.
pub open spec fn time_text(time: Timestamp) -> Seq<char> {
    match formatted_time(time, APPLE_FORMAT@) {
        Some(text) => text,
        None => Seq::empty(),
    }
}

/// What [`extract_base_metadata`] returns, as a [`Header`].
pub open spec fn metadata_view(
    metadata: Option<(String, Option<String>, Option<String>, String)>,
) -> Option<Header> {
    match metadata {
        Some((name, bsd_name, comment, time)) => Some(
            Header {
                name: name@,
                bsd_name: bsd_name.deep_view(),
                comment: comment.deep_view(),
                time: time@,
            },
        ),
        None => None,
    }
}

/// Structured data about a disk event.
///
/// An event is either created empty or parsed from a line. No optional field
/// ever holds the sentinel `<null>`.
#[derive(Debug, PartialEq, Eq)]
pub struct Event {
    name: String,
    time: Timestamp,
    bsd_name: Option<String>,
    volume_path: Option<String>,
    volume_kind: Option<String>,
    volume_name: Option<String>,
    comment: Option<String>,
}

impl View for Event {
    type V = EventView;

    closed spec fn view(&self) -> EventView {
        EventView {
            name: self.name@,
            time: self.time,
            bsd_name: self.bsd_name.deep_view(),
            volume_path: self.volume_path.deep_view(),
            volume_kind: self.volume_kind.deep_view(),
            volume_name: self.volume_name.deep_view(),
            comment: self.comment.deep_view(),
        }
    }
}

impl Clone for Event {
    fn clone(&self) -> (event: Event)
        ensures
            event@ == self@,
            event@.sentinel_free(),
    {
        proof {
            use_type_invariant(self);
        }
        Event {
            name: self.name.clone(),
            time: self.time,
            bsd_name: copy_of(&self.bsd_name),
            volume_path: copy_of(&self.volume_path),
            volume_kind: copy_of(&self.volume_kind),
            volume_name: copy_of(&self.volume_name),
            comment: copy_of(&self.comment),
        }
    }
}

/// Copies `value`, unless it is the sentinel.
fn owned_unless_sentinel(value: &str) -> (r: Option<String>)
    ensures
        r.deep_view() == present(value@),
{
    if same_text(value, SENTINEL) {
        None
    } else {
        Some(value.to_owned())
    }
}

impl Event {
    #[verifier::type_invariant]
    spec fn holds_no_sentinel(self) -> bool {
        self@.sentinel_free()
    }

    /// Creates an empty Event: no name, no optional field, and the current
    /// local time.
    pub fn empty() -> (event: Event)
        ensures
            event@ == EventView::blank(event@.time),
            event@.sentinel_free(),
    {
        Event::empty_at(local_now())
    }

    /// Creates an empty Event with the given time: no name and no optional
    /// field.
    pub fn empty_at(time: Timestamp) -> (event: Event)
        ensures
            event@ == EventView::blank(time),
            event@.sentinel_free(),
    {
        Event {
            name: String::new(),
            time,
            bsd_name: None,
            volume_path: None,
            volume_kind: None,
            volume_name: None,
            comment: None,
        }
    }

    /// Creates the event that `line` reports.
    ///
    /// A line without a head gives an event without a name, with the current
    /// local time: the clock's reading is the one thing of the event that
    /// the line does not settle, so the contract takes the event's own time
    /// for it. The time token of a head must follow [`APPLE_FORMAT`];
    /// [`Event::try_from_line`] reports a token that does not.
    pub fn from_line(line: &str) -> (event: Event)
        requires
            !time_unreadable(line@),
        ensures
            event@ == line_event(line@, event@.time),
            event@.sentinel_free(),
    {
        let mut event = Event::empty();
        match extract_base_metadata(line) {
            Some((name, bsd_name, comment, time)) => {
                event.set_name(name.as_str());
                match bsd_name {
                    Some(bsd_name) => {
                        event.set_bsd_name(bsd_name.as_str());
                    },
                    None => {},
                }
                match comment {
                    Some(comment) => {
                        event.set_comment(comment.as_str());
                    },
                    None => {},
                }
                event.set_time_string(time.as_str());
            },
            None => {},
        }
        match extract_volume_path(line) {
            Some(path) => {
                event.set_path(path.as_str());
            },
            None => {},
        }
        match extract_volume_kind(line) {
            Some(kind) => {
                event.set_kind(kind.as_str());
            },
            None => {},
        }
        match extract_volume_name(line) {
            Some(name) => {
                event.set_volume_name(name.as_str());
            },
            None => {},
        }
        proof {
            use_type_invariant(&event);
        }
        event
    }

    /// Creates the event that `line` reports, or says which time token does
    /// not follow [`APPLE_FORMAT`].
    pub fn try_from_line(line: &str) -> (r: Result<Event, Error>)
        ensures
            match r {
                Ok(event) => {
                    &&& !time_unreadable(line@)
                    &&& event@ == line_event(line@, event@.time)
                    &&& event@.sentinel_free()
                },
                Err(error) => {
                    &&& time_unreadable(line@)
                    &&& error@ == ErrorView::Time(line_header(line@).unwrap().time)
                },
            },
    {
        match extract_base_metadata(line) {
            Some((_, _, _, time)) => {
                if parse_time(time.as_str(), APPLE_FORMAT).is_none() {
                    return Err(Error::Time(time));
                }
            },
            None => {},
        }
        Ok(Event::from_line(line))
    }

    /// The event name
    pub fn name(&self) -> (name: String)
        ensures
            name@ == self@.name,
    {
        self.name.clone()
    }

    /// Sets the event name
    pub fn set_name(&mut self, name: &str)
        ensures
            final(self)@ == (EventView { name: name@, ..old(self)@ }),
            final(self)@.sentinel_free(),
    {
        proof {
            use_type_invariant(&*self);
        }
        self.name = name.to_owned();
    }

    /// Sets the disk name; the sentinel clears it.
    pub fn set_bsd_name(&mut self, bsd_name: &str)
        ensures
            final(self)@ == (EventView { bsd_name: present(bsd_name@), ..old(self)@ }),
            final(self)@.sentinel_free(),
    {
        proof {
            use_type_invariant(&*self);
        }
        self.bsd_name = owned_unless_sentinel(bsd_name);
    }

    /// The disk name, if any
    pub fn bsd_name(&self) -> (bsd_name: Option<String>)
        ensures
            bsd_name.deep_view() == self@.bsd_name,
            self@.bsd_name != Some(SENTINEL@),
    {
        proof {
            use_type_invariant(self);
        }
        copy_of(&self.bsd_name)
    }

    /// Sets the event comment; the sentinel clears it.
    pub fn set_comment(&mut self, comment: &str)
        ensures
            final(self)@ == (EventView { comment: present(comment@), ..old(self)@ }),
            final(self)@.sentinel_free(),
    {
        proof {
            use_type_invariant(&*self);
        }
        self.comment = owned_unless_sentinel(comment);
    }

    /// The event comment, if any
    pub fn comment(&self) -> (comment: Option<String>)
        ensures
            comment.deep_view() == self@.comment,
            self@.comment != Some(SENTINEL@),
    {
        proof {
            use_type_invariant(self);
        }
        copy_of(&self.comment)
    }

    /// Sets the volume path of the event; the sentinel clears it.
    pub fn set_path(&mut self, path: &str)
        ensures
            final(self)@ == (EventView { volume_path: present(path@), ..old(self)@ }),
            final(self)@.sentinel_free(),
    {
        proof {
            use_type_invariant(&*self);
        }
        self.volume_path = owned_unless_sentinel(path);
    }

    /// The volume path, if any
    pub fn path(&self) -> (path: Option<String>)
        ensures
            path.deep_view() == self@.volume_path,
            self@.volume_path != Some(SENTINEL@),
    {
        proof {
            use_type_invariant(self);
        }
        copy_of(&self.volume_path)
    }

    /// Sets the volume kind; the sentinel clears it.
    pub fn set_kind(&mut self, kind: &str)
        ensures
            final(self)@ == (EventView { volume_kind: present(kind@), ..old(self)@ }),
            final(self)@.sentinel_free(),
    {
        proof {
            use_type_invariant(&*self);
        }
        self.volume_kind = owned_unless_sentinel(kind);
    }

    /// The volume kind, if any
    pub fn kind(&self) -> (kind: Option<String>)
        ensures
            kind.deep_view() == self@.volume_kind,
            self@.volume_kind != Some(SENTINEL@),
    {
        proof {
            use_type_invariant(self);
        }
        copy_of(&self.volume_kind)
    }

    /// Sets the volume name; the sentinel clears it.
    pub fn set_volume_name(&mut self, name: &str)
        ensures
            final(self)@ == (EventView { volume_name: present(name@), ..old(self)@ }),
            final(self)@.sentinel_free(),
    {
        proof {
            use_type_invariant(&*self);
        }
        self.volume_name = owned_unless_sentinel(name);
    }

    /// The volume name, if any
    pub fn volume_name(&self) -> (name: Option<String>)
        ensures
            name.deep_view() == self@.volume_name,
            self@.volume_name != Some(SENTINEL@),
    {
        proof {
            use_type_invariant(self);
        }
        copy_of(&self.volume_name)
    }

    /// Sets the time when the event happened.
    pub fn set_time(&mut self, time: Timestamp)
        ensures
            final(self)@ == (EventView { time, ..old(self)@ }),
            final(self)@.sentinel_free(),
    {
        proof {
            use_type_invariant(&*self);
        }
        self.time = time;
    }

    /// The time when the event happened
    pub fn time(&self) -> (time: Timestamp)
        ensures
            time == self@.time,
    {
        self.time
    }

    /// Sets the time from a token in [`APPLE_FORMAT`].
    ///
    /// The token must follow the format; [`Event::try_set_time_string`]
    /// reports one that does not.
    pub fn set_time_string(&mut self, time: &str)
        requires
            parsed_time(time@, APPLE_FORMAT@) is Some,
        ensures
            final(self)@ == (EventView {
                time: parsed_time(time@, APPLE_FORMAT@).unwrap(),
                ..old(self)@
            }),
            final(self)@.sentinel_free(),
    {
        match parse_time(time, APPLE_FORMAT) {
            Some(time) => {
                self.set_time(time);
            },
            None => unreached(),
        }
    }

    /// Sets the time from a token in [`APPLE_FORMAT`], or leaves the event
    /// as it is and reports the token where it does not follow the format.
    pub fn try_set_time_string(&mut self, time: &str) -> (r: Result<(), Error>)
        ensures
            match r {
                Ok(()) => {
                    &&& parsed_time(time@, APPLE_FORMAT@) matches Some(parsed)
                    &&& final(self)@ == (EventView { time: parsed, ..old(self)@ })
                    &&& final(self)@.sentinel_free()
                },
                Err(error) => {
                    &&& parsed_time(time@, APPLE_FORMAT@) is None
                    &&& final(self)@ == old(self)@
                    &&& error@ == ErrorView::Time(time@)
                },
            },
    {
        if parse_time(time, APPLE_FORMAT).is_some() {
            self.set_time_string(time);
            Ok(())
        } else {
            Err(Error::Time(time.to_owned()))
        }
    }

    /// The time when the event happened as string
    pub fn time_string(&self) -> (text: String)
        ensures
            text@ == time_text(self@.time),
    {
        match format_time(&self.time, APPLE_FORMAT) {
            Some(text) => text,
            None => String::new(),
        }
    }
}

/// Copies an optional text.
fn copy_of(value: &Option<String>) -> (r: Option<String>)
    ensures
        r.deep_view() == value.deep_view(),
{
    match value {
        Some(text) => Some(text.clone()),
        None => None,
    }
}

/// Reads the head out of the groups of a search with [`HEADER_PATTERN`]:
/// - event name,
/// - bsd_name
/// - comment
/// - time
pub fn base_metadata_of(found: &Option<Vec<Option<String>>>) -> (metadata: Option<
    (String, Option<String>, Option<String>, String),
>)
    ensures
        metadata_view(metadata) == header_of(found.deep_view()),
{
    match found {
        Some(groups) => {
            let name = group_text(groups, 1);
            let subject = group_text(groups, 2);
            let comment = group_text(groups, 4);
            let time = group_text(groups, 5);
            match (name, subject, time) {
                (Some(name), Some(subject), Some(time)) => {
                    let bsd_name = if same_text(subject.as_str(), NO_BSD_NAME) {
                        None
                    } else {
                        Some(subject)
                    };
                    Some((name, bsd_name, comment, time))
                },
                _ => None,
            }
        },
        None => None,
    }
}

/// Reads the value out of the groups of a search with one of the volume
/// patterns.
pub fn volume_value_of(found: &Option<Vec<Option<String>>>) -> (value: Option<String>)
    ensures
        value.deep_view() == value_of(found.deep_view()),
{
    match found {
        Some(groups) => group_text(groups, 2),
        None => None,
    }
}

/// Extracts most of the metadata about the event from a line:
/// - event name,
/// - bsd_name
/// - comment
/// - time
pub fn extract_base_metadata(line: &str) -> (metadata: Option<
    (String, Option<String>, Option<String>, String),
>)
    ensures
        metadata_view(metadata) == line_header(line@),
{
    let found = captures(HEADER_PATTERN, line);
    base_metadata_of(&found)
}

/// Extracts the volume path from the given line.
pub fn extract_volume_path(line: &str) -> (path: Option<String>)
    ensures
        path.deep_view() == value_of(regex_captures(VOLUME_PATH_PATTERN@, line@)),
{
    let found = captures(VOLUME_PATH_PATTERN, line);
    volume_value_of(&found)
}

/// Extracts the volume kind from the given line.
pub fn extract_volume_kind(line: &str) -> (kind: Option<String>)
    ensures
        kind.deep_view() == value_of(regex_captures(VOLUME_KIND_PATTERN@, line@)),
{
    let found = captures(VOLUME_KIND_PATTERN, line);
    volume_value_of(&found)
}

/// Extracts the volume name from the given line.
pub fn extract_volume_name(line: &str) -> (name: Option<String>)
    ensures
        name.deep_view() == value_of(regex_captures(VOLUME_NAME_PATTERN@, line@)),
{
    let found = captures(VOLUME_NAME_PATTERN, line);
    volume_value_of(&found)
}

/// A field without a value is absent.
///
/// Whatever `line` holds, no optional field of the event that it reports
/// holds the sentinel `<null>`.
pub proof fn law_sentinel_is_absent(line: Seq<char>, fallback: Timestamp)
    ensures
        line_event(line, fallback).sentinel_free(),
{
}

/// The fields of an event are what the patterns found in its line.
///
/// Where the head of `line` gives a name, a subject and a time token that
/// follows the format, and the volume patterns find a path, a kind and a
/// name, none of them the sentinel and the subject a disk's name, the event
/// holds exactly these, and the time that the token stands for.
pub proof fn law_fields_reproduce_line(
    line: Seq<char>,
    fallback: Timestamp,
    header: Header,
    subject: Seq<char>,
    path: Seq<char>,
    kind: Seq<char>,
    volume: Seq<char>,
    time: Timestamp,
)
    requires
        line_header(line) == Some(header),
        header.bsd_name == Some(subject),
        subject != SENTINEL@,
        parsed_time(header.time, APPLE_FORMAT@) == Some(time),
        value_of(regex_captures(VOLUME_PATH_PATTERN@, line)) == Some(path),
        value_of(regex_captures(VOLUME_KIND_PATTERN@, line)) == Some(kind),
        value_of(regex_captures(VOLUME_NAME_PATTERN@, line)) == Some(volume),
        path != SENTINEL@,
        kind != SENTINEL@,
        volume != SENTINEL@,
    ensures
        !time_unreadable(line),
        line_event(line, fallback).name == header.name,
        line_event(line, fallback).bsd_name == Some(subject),
        line_event(line, fallback).volume_path == Some(path),
        line_event(line, fallback).volume_kind == Some(kind),
        line_event(line, fallback).volume_name == Some(volume),
        line_event(line, fallback).time == time,
{
}

/// A disk without a name has none in the event.
///
/// Where the subject that the head pattern finds in `line` is
/// `(no BSD name)`, the event has no disk name.
pub proof fn law_no_bsd_name(line: Seq<char>, fallback: Timestamp, groups: Groups)
    requires
        regex_captures(HEADER_PATTERN@, line) == Some(groups),
        group(groups, 2) == Some(NO_BSD_NAME@),
    ensures
        line_event(line, fallback).bsd_name is None,
{
}

/// The comment of an event is the comment of its line.
///
/// Where `line` has a head, the event's comment is the token that the head
/// pattern finds behind `Comment=`, and absent where it finds none.
pub proof fn law_comment_is_taken(line: Seq<char>, fallback: Timestamp, groups: Groups)
    requires
        regex_captures(HEADER_PATTERN@, line) == Some(groups),
        line_header(line) is Some,
    ensures
        line_event(line, fallback).comment == match group(groups, 4) {
            Some(comment) => present(comment),
            None => None,
        },
{
}

/// A line that gives only name, subject and time reports an event.
///
/// Where `line` has a head whose time token follows the format, and none of
/// the volume patterns finds anything, the event has the head's name, disk
/// name and time, and no volume field.
pub proof fn law_minimal_line(line: Seq<char>, fallback: Timestamp, header: Header, time: Timestamp)
    requires
        line_header(line) == Some(header),
        parsed_time(header.time, APPLE_FORMAT@) == Some(time),
        regex_captures(VOLUME_PATH_PATTERN@, line) is None,
        regex_captures(VOLUME_KIND_PATTERN@, line) is None,
        regex_captures(VOLUME_NAME_PATTERN@, line) is None,
    ensures
        !time_unreadable(line),
        line_event(line, fallback).name == header.name,
        line_event(line, fallback).time == time,
        line_event(line, fallback).bsd_name == match header.bsd_name {
            Some(subject) => present(subject),
            None => None,
        },
        line_event(line, fallback).volume_path is None,
        line_event(line, fallback).volume_kind is None,
        line_event(line, fallback).volume_name is None,
{
}

} // verus!
