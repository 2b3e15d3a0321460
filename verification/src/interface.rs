//! The rules of the desktop interface that do not depend on drawing: reading
//! the database form, confirmations, which project and database stay selected
//! when new workspace data arrives, and the status texts.
use crate::model::{
    active, config_rejection, rejection_text, AbstractConfig, ContainerState, DatabaseConfig,
    Snapshot,
};
use crate::text::{append, chars_of, contains, decimal, occurs, string_of, trim, trimmed};
use vstd::prelude::*;

verus! {

// ---------------------------------------------------------------------------
// Numbers typed by the user
// ---------------------------------------------------------------------------

pub open spec fn is_digit_char(c: char) -> bool {
    '0' <= c <= '9'
}

pub open spec fn digit_value(c: char) -> nat {
    ((c as u32) - ('0' as u32)) as nat
}

/// The value of a string of decimal digits.
pub open spec fn digits_value(d: Seq<char>) -> nat
    decreases d.len(),
{
    if d.len() == 0 {
        0
    } else {
        digits_value(d.drop_last()) * 10 + digit_value(d.last())
    }
}

/// Every character is an ASCII digit.
pub open spec fn all_digits(d: Seq<char>) -> bool {
    forall|i: int| 0 <= i < d.len() ==> is_digit_char(#[trigger] d[i])
}

/// The digits that follow an optional leading `+`.
pub open spec fn digit_part(s: Seq<char>) -> Seq<char> {
    if s.len() > 0 && s[0] == '+' {
        s.drop_first()
    } else {
        s
    }
}

/// `str::parse::<u16>`: an optional `+`, then at least one ASCII digit, and a
/// value of at most 65535.
pub open spec fn parsed_u16(s: Seq<char>) -> Option<u16> {
    let d = digit_part(s);
    if d.len() == 0 || !all_digits(d) {
        None
    } else if digits_value(d) > 65535 {
        None
    } else {
        Some(digits_value(d) as u16)
    }
}

proof fn lemma_digits_value_grows(d: Seq<char>, k: int)
    requires
        0 <= k <= d.len(),
        all_digits(d),
    ensures
        digits_value(d.take(k)) <= digits_value(d),
    decreases d.len() - k,
{
    if k < d.len() {
        assert(d.drop_last().take(k) == d.take(k));
        assert forall|i: int| 0 <= i < d.drop_last().len() implies is_digit_char(
            #[trigger] d.drop_last()[i],
        ) by {
            assert(d.drop_last()[i] == d[i]);
        }
        assert(all_digits(d.drop_last()));
        lemma_digits_value_grows(d.drop_last(), k);
    } else {
        assert(d.take(k) == d);
    }
}

/// Reads a port typed in a form: blank means automatic.
pub fn parse_port_field(text: &str) -> (r: Result<Option<u16>, ()>)
    ensures
        trim(text@).len() == 0 ==> r == Ok::<Option<u16>, ()>(None),
        trim(text@).len() > 0 ==> r == match parsed_u16(trim(text@)) {
            Some(p) => Ok::<Option<u16>, ()>(Some(p)),
            None => Err(()),
        },
{
    let t = chars_of(text);
    let (a, b) = crate::text::trim_bounds(&t);
    if a == b {
        return Ok(None);
    }
    let ghost s = t@.subrange(a as int, b as int);
    let mut start = a;
    if t[a] == '+' {
        start = a + 1;
    }
    let ghost d = t@.subrange(start as int, b as int);
    proof {
        if t@[a as int] == '+' {
            assert(d == s.drop_first());
        } else {
            assert(d == s);
        }
    }
    assert(s == trim(text@));
    assert(d == digit_part(s));
    if start == b {
        return Err(());
    }
    let mut value: u32 = 0;
    let mut i = start;
    while i < b
        invariant
            a <= start < b,
            start <= i <= b <= t.len(),
            s == trim(text@),
            s.len() > 0,
            d == digit_part(s),
            d == t@.subrange(start as int, b as int),
            forall|k: int| 0 <= k < i - start ==> is_digit_char(#[trigger] d[k]),
            value as nat == digits_value(d.take(i - start)),
            value <= 65535,
        decreases b - i,
    {
        let c = t[i];
        assert(d[i - start] == c);
        if c < '0' || c > '9' {
            assert(!is_digit_char(d[i - start]));
            assert(!all_digits(d));
            return Err(());
        }
        let digit = (c as u32) - ('0' as u32);
        assert(d.take(i - start + 1).drop_last() == d.take(i - start));
        assert(d.take(i - start + 1).last() == c);
        let next = value * 10 + digit;
        if next > 65535 {
            proof {
                assert(digits_value(d.take(i - start + 1)) > 65535);
                if all_digits(d) {
                    lemma_digits_value_grows(d, i - start + 1);
                }
            }
            return Err(());
        }
        value = next;
        i = i + 1;
    }
    assert(d.take(b - start) == d);
    assert(all_digits(d));
    Ok(Some(value as u16))
}

// ---------------------------------------------------------------------------
// The database form
// ---------------------------------------------------------------------------

/// The configuration the six form fields describe (name, tag, database, user,
/// port, server arguments), each trimmed.
pub open spec fn form_config(values: Seq<Seq<char>>, port: Option<u16>) -> AbstractConfig {
    AbstractConfig {
        name: trim(values[0]),
        tag: trim(values[1]),
        database: trim(values[2]),
        user: trim(values[3]),
        reserved_port: port,
        command: trim(values[5]),
    }
}

pub open spec fn port_field_text() -> Seq<char> {
    "Port must be a number between 1024 and 65535, or blank for automatic."@
}

/// Reads the database form: a port that is not a number is refused first, then
/// the configuration must validate; errors are the messages to show.
pub fn database_form(values: &Vec<String>) -> (r: Result<DatabaseConfig, String>)
    requires
        values@.len() == 6,
    ensures
        ({
            let v = values.deep_view();
            let port_text = trim(v[4]);
            match (if port_text.len() == 0 {
                Some(None::<u16>)
            } else {
                match parsed_u16(port_text) {
                    Some(p) => Some(Some(p)),
                    None => None,
                }
            }) {
                None => r matches Err(m) && m@ == port_field_text(),
                Some(port) => match config_rejection(form_config(v, port)) {
                    Some(rej) => r matches Err(m) && m@ == rejection_text(rej),
                    None => r matches Ok(c) && c@ == form_config(v, port),
                },
            }
        }),
{
    let port = match parse_port_field(values[4].as_str()) {
        Err(()) => {
            return Err(
                String::from_str(
                    "Port must be a number between 1024 and 65535, or blank for automatic.",
                ),
            );
        },
        Ok(p) => p,
    };
    let config = DatabaseConfig {
        name: trimmed(values[0].as_str()),
        tag: trimmed(values[1].as_str()),
        database: trimmed(values[2].as_str()),
        user: trimmed(values[3].as_str()),
        reserved_port: port,
        command: trimmed(values[5].as_str()),
    };
    assert(config@ == form_config(values.deep_view(), port));
    match config.validate() {
        Err(e) => Err(e.message()),
        Ok(()) => Ok(config),
    }
}

/// A destructive action is confirmed by typing the name exactly.
pub fn confirmation(typed: &String, name: &String) -> (r: Result<(), String>)
    ensures
        typed@ == name@ ==> r is Ok,
        typed@ != name@ ==> (r matches Err(m) && m@ == "Type "@ + name@ + " exactly to confirm."@),
{
    if *typed == *name {
        Ok(())
    } else {
        let mut m = String::from_str("Type ");
        append(&mut m, name.as_str());
        append(&mut m, " exactly to confirm.");
        Err(m)
    }
}

/// The suggested file name of a backup: the initial database's name.
pub fn backup_file_name(database: &str) -> (s: String)
    ensures
        s@ == database@ + ".dump"@,
{
    let mut s = String::from_str(database);
    append(&mut s, ".dump");
    s
}

/// The text a form shows for a reserved port: its decimal digits, or nothing
/// for an automatic port.
pub open spec fn port_text(port: Option<u16>) -> Seq<char> {
    match port {
        Some(p) => decimal(p as nat),
        None => Seq::empty(),
    }
}

/// The six values the database form opens with, taken from a configuration
/// (the default one for a new database).
pub fn database_form_values(config: &DatabaseConfig) -> (v: Vec<String>)
    ensures
        v@.len() == 6,
        v[0]@ == config.name@,
        v[1]@ == config.tag@,
        v[2]@ == config.database@,
        v[3]@ == config.user@,
        v[4]@ == port_text(config.reserved_port),
        v[5]@ == config.command@,
{
    let mut port = String::new();
    if let Some(p) = config.reserved_port {
        crate::text::push_decimal(&mut port, p as u64);
    }
    let mut v: Vec<String> = Vec::new();
    v.push(config.name.clone());
    v.push(config.tag.clone());
    v.push(config.database.clone());
    v.push(config.user.clone());
    v.push(port);
    v.push(config.command.clone());
    v
}

// ---------------------------------------------------------------------------
// Selection
// ---------------------------------------------------------------------------

pub open spec fn opt_view(o: Option<String>) -> Option<Seq<char>> {
    match o {
        Some(s) => Some(s@),
        None => None,
    }
}

/// The snapshot lists a project with this id.
pub open spec fn project_listed(s: Snapshot, id: Option<Seq<char>>) -> bool {
    exists|i: int| 0 <= i < s.projects@.len() && Some(#[trigger] s.projects@[i].id@) == id
}

/// The snapshot lists a database with this id.
pub open spec fn database_listed(s: Snapshot, id: Option<Seq<char>>) -> bool {
    exists|i: int| 0 <= i < s.databases@.len() && Some(#[trigger] s.databases@[i].database.id@) == id
}

/// The first database of a project, in the order of the list.
pub open spec fn first_database_of(dbs: Seq<crate::model::DatabaseView>, project: Option<Seq<char>>) -> Option<Seq<char>>
    decreases dbs.len(),
{
    if dbs.len() == 0 {
        None
    } else if Some(dbs[0].database.project_id@) == project {
        Some(dbs[0].database.id@)
    } else {
        first_database_of(dbs.drop_first(), project)
    }
}

/// The open project after new workspace data: kept while it exists, otherwise
/// the first project (or none).
pub open spec fn kept_project(s: Snapshot, project: Option<Seq<char>>) -> Option<Seq<char>> {
    if project_listed(s, project) {
        project
    } else if s.projects@.len() > 0 {
        Some(s.projects@[0].id@)
    } else {
        None
    }
}

/// What stays selected after new workspace data.
pub struct Selection {
    pub project: Option<String>,
    pub selected: Option<String>,
    /// The selected database changed (its logs must be cleared and the
    /// worker told).
    pub reselected: bool,
}

fn same_opt(a: &Option<String>, b: &Option<String>) -> (r: bool)
    ensures
        r == (opt_view(*a) == opt_view(*b)),
{
    match (a, b) {
        (None, None) => true,
        (Some(x), Some(y)) => *x == *y,
        _ => false,
    }
}

fn clone_opt(a: &Option<String>) -> (r: Option<String>)
    ensures
        opt_view(r) == opt_view(*a),
{
    match a {
        Some(x) => Some(x.clone()),
        None => None,
    }
}

/// A selected database that disappeared is replaced by the first database of
/// the open project (or none); one that still exists stays selected.
pub fn after_snapshot(s: &Snapshot, project: Option<String>, selected: Option<String>) -> (r: Selection)
    ensures
        opt_view(r.project) == kept_project(*s, opt_view(project)),
        database_listed(*s, opt_view(selected)) ==> (!r.reselected && opt_view(r.selected)
            == opt_view(selected)),
        !database_listed(*s, opt_view(selected)) ==> ({
            let next = first_database_of(s.databases@, kept_project(*s, opt_view(project)));
            &&& r.reselected == (next != opt_view(selected))
            &&& opt_view(r.selected) == next
        }),
{
    let mut found = false;
    let mut i: usize = 0;
    while i < s.projects.len()
        invariant
            i <= s.projects@.len(),
            found ==> project_listed(*s, opt_view(project)),
            !found ==> forall|k: int| 0 <= k < i ==> Some(#[trigger] s.projects@[k].id@) != opt_view(project),
        decreases s.projects@.len() - i,
    {
        if !found {
            let id = Some(s.projects[i].id.clone());
            if same_opt(&id, &project) {
                found = true;
                assert(Some(s.projects@[i as int].id@) == opt_view(project));
            }
        }
        i = i + 1;
    }
    let open = if found {
        project
    } else if s.projects.len() > 0 {
        Some(s.projects[0].id.clone())
    } else {
        None
    };
    assert(opt_view(open) == kept_project(*s, opt_view(project)));
    let mut listed = false;
    let mut j: usize = 0;
    while j < s.databases.len()
        invariant
            j <= s.databases@.len(),
            listed ==> database_listed(*s, opt_view(selected)),
            !listed ==> forall|k: int| 0 <= k < j ==> Some(#[trigger] s.databases@[k].database.id@) != opt_view(selected),
        decreases s.databases@.len() - j,
    {
        if !listed {
            let id = Some(s.databases[j].database.id.clone());
            if same_opt(&id, &selected) {
                listed = true;
                assert(Some(s.databases@[j as int].database.id@) == opt_view(selected));
            }
        }
        j = j + 1;
    }
    if listed {
        return Selection { project: open, selected, reselected: false };
    }
    let ghost dbs = s.databases@;
    let mut next: Option<String> = None;
    let mut k: usize = 0;
    let mut searching = true;
    assert(dbs.skip(0) == dbs);
    while searching && k < s.databases.len()
        invariant
            k <= dbs.len(),
            dbs == s.databases@,
            searching ==> next is None,
            searching ==> first_database_of(dbs, opt_view(open)) == first_database_of(
                dbs.skip(k as int),
                opt_view(open),
            ),
            !searching ==> opt_view(next) == first_database_of(dbs, opt_view(open)),
        decreases dbs.len() - k,
    {
        let owner = Some(s.databases[k].database.project_id.clone());
        assert(dbs.skip(k as int)[0] == dbs[k as int]);
        assert(dbs.skip(k as int).drop_first() == dbs.skip(k + 1));
        if same_opt(&owner, &open) {
            next = Some(s.databases[k].database.id.clone());
            searching = false;
        }
        k = k + 1;
    }
    proof {
        if searching {
            assert(dbs.skip(k as int).len() == 0);
        }
    }
    assert(opt_view(next) == first_database_of(dbs, opt_view(open)));
    let reselected = !same_opt(&next, &selected);
    Selection { project: open, selected: next, reselected }
}

/// The project of the first listed database with this id.
pub open spec fn owner_of(dbs: Seq<crate::model::DatabaseView>, id: Option<Seq<char>>) -> Option<Seq<char>>
    decreases dbs.len(),
{
    if dbs.len() == 0 {
        None
    } else if Some(dbs[0].database.id@) == id {
        Some(dbs[0].database.project_id@)
    } else {
        owner_of(dbs.drop_first(), id)
    }
}

/// Selecting a database opens its project; selecting one that is not listed
/// (or none) leaves the open project as it was.
pub fn project_after_select(s: &Snapshot, selected: &Option<String>, project: Option<String>) -> (r: Option<String>)
    ensures
        opt_view(r) == match owner_of(s.databases@, opt_view(*selected)) {
            Some(p) => Some(p),
            None => opt_view(project),
        },
{
    let ghost dbs = s.databases@;
    let mut k: usize = 0;
    assert(dbs.skip(0) == dbs);
    while k < s.databases.len()
        invariant
            k <= dbs.len(),
            dbs == s.databases@,
            owner_of(dbs, opt_view(*selected)) == owner_of(dbs.skip(k as int), opt_view(*selected)),
        decreases dbs.len() - k,
    {
        assert(dbs.skip(k as int)[0] == dbs[k as int]);
        assert(dbs.skip(k as int).drop_first() == dbs.skip(k + 1));
        let id = Some(s.databases[k].database.id.clone());
        if same_opt(&id, selected) {
            return Some(s.databases[k].database.project_id.clone());
        }
        k = k + 1;
    }
    assert(dbs.skip(k as int).len() == 0);
    project
}

/// What the interface does when the worker reports a finished action.
pub struct Outcome {
    /// The message shown, and whether it is an error.
    pub notice: String,
    pub error: bool,
    /// A successful action closes the open form.
    pub close_form: bool,
    /// The database to select afterwards.
    pub select: Option<String>,
}

pub fn completion(result: Result<String, String>, selection: Option<String>) -> (o: Outcome)
    ensures
        match result {
            Ok(m) => o.notice == m && !o.error && o.close_form && o.select == selection,
            Err(e) => o.notice == e && o.error && !o.close_form && o.select is None,
        },
{
    match result {
        Ok(m) => Outcome { notice: m, error: false, close_form: true, select: selection },
        Err(e) => Outcome { notice: e, error: true, close_form: false, select: None },
    }
}

/// Followed logs are replaced by those of new workspace data when they belong
/// to the selected database and differ from what is shown.
pub fn takes_new_logs(
    follow: bool,
    logs_of: &Option<String>,
    selected: &Option<String>,
    shown: &String,
    incoming: &String,
) -> (b: bool)
    ensures
        b == (follow && opt_view(*logs_of) == opt_view(*selected) && shown@ != incoming@),
{
    follow && same_opt(logs_of, selected) && *shown != *incoming
}

// ---------------------------------------------------------------------------
// The database screen
// ---------------------------------------------------------------------------

/// Which controls of a database's screen can be used.
pub struct Controls {
    /// Settings can change only while the container is not active.
    pub settings: bool,
    /// The lifecycle button stops an active container and starts any other.
    pub shows_stop: bool,
    pub lifecycle: bool,
    /// Backups and restores need a running PostgreSQL.
    pub backup: bool,
    /// Removal needs a container that is not active.
    pub remove: bool,
}

/// Nothing can be changed while an operation runs or Docker is unavailable.
pub fn controls(state: ContainerState, busy: bool, docker_unavailable: bool) -> (c: Controls)
    ensures
        c.settings == (!busy && !docker_unavailable && !active(state)),
        c.shows_stop == active(state),
        c.lifecycle == (!busy && !docker_unavailable),
        c.backup == (!busy && !docker_unavailable && state == ContainerState::Running),
        c.remove == (!busy && !docker_unavailable && !active(state)),
{
    let unavailable = busy || docker_unavailable;
    let is_active = state.is_active();
    Controls {
        settings: !unavailable && !is_active,
        shows_stop: is_active,
        lifecycle: !unavailable,
        backup: !unavailable && state == ContainerState::Running,
        remove: !unavailable && !is_active,
    }
}

/// A project can be added once the workspace is loaded and while no operation
/// runs.
pub fn can_add_project(ready: bool, busy: bool) -> (b: bool)
    ensures
        b == (ready && !busy),
{
    ready && !busy
}

/// No form opens while an operation runs.
pub fn form_opens(busy: bool) -> (b: bool)
    ensures
        b == !busy,
{
    !busy
}

/// Only the display name, the port and the server arguments of an existing
/// database can be edited; the tag, the initial database and the user are
/// fixed at creation.
pub fn field_editable(editing: bool, busy: bool, field: usize) -> (b: bool)
    ensures
        b == (!busy && !(editing && 1 <= field <= 3)),
{
    !busy && !(editing && 1 <= field && field <= 3)
}

/// An empty project can be removed; one that holds databases cannot.
pub fn project_removable(s: &Snapshot, project: &String, busy: bool) -> (b: bool)
    ensures
        b == (!busy && forall|i: int|
            0 <= i < s.databases@.len() ==> #[trigger] s.databases@[i].database.project_id@
                != project@),
{
    if busy {
        return false;
    }
    let mut i: usize = 0;
    while i < s.databases.len()
        invariant
            i <= s.databases@.len(),
            forall|k: int| 0 <= k < i ==> #[trigger] s.databases@[k].database.project_id@ != project@,
        decreases s.databases@.len() - i,
    {
        if s.databases[i].database.project_id == *project {
            return false;
        }
        i = i + 1;
    }
    true
}

pub open spec fn entry_label(active: bool, name: Seq<char>) -> Seq<char> {
    (if active { "●"@ } else { "○"@ }) + "  "@ + name
}

/// A database in the sidebar: a filled dot while its container is active.
pub fn database_entry(view: &crate::model::DatabaseView) -> (m: String)
    ensures
        m@ == entry_label(active(view.state), view.database.config.name@),
{
    let mut m = if view.state.is_active() {
        String::from_str("●")
    } else {
        String::from_str("○")
    };
    append(&mut m, "  ");
    append(&mut m, view.database.config.name.as_str());
    m
}

pub open spec fn placeholder_text(state: ContainerState) -> Seq<char> {
    if state == ContainerState::NotCreated {
        "Your database is ready to start.\n\nStart it to see PostgreSQL activity here.\nImages already on this machine are always used first."@
    } else {
        "Waiting for PostgreSQL logs…"@
    }
}

/// The log panel shows the logs, or a hint while there are none.
pub fn shown_logs(logs: &String, state: ContainerState) -> (m: String)
    ensures
        logs@.len() > 0 ==> m@ == logs@,
        logs@.len() == 0 ==> m@ == placeholder_text(state),
{
    if logs.as_str().unicode_len() > 0 {
        logs.clone()
    } else if state == ContainerState::NotCreated {
        String::from_str(
            "Your database is ready to start.\n\nStart it to see PostgreSQL activity here.\nImages already on this machine are always used first.",
        )
    } else {
        String::from_str("Waiting for PostgreSQL logs…")
    }
}

/// How a log line is coloured.
#[derive(Clone, Copy, Debug, PartialEq, Eq, Structural)]
pub enum Tone {
    Problem,
    Ready,
    Plain,
}

pub open spec fn tone_of(line: Seq<char>) -> Tone {
    if occurs(line, "ERROR:"@) || occurs(line, "FATAL:"@) {
        Tone::Problem
    } else if occurs(line, "ready to accept connections"@) {
        Tone::Ready
    } else {
        Tone::Plain
    }
}

pub fn line_tone(line: &str) -> (t: Tone)
    ensures
        t == tone_of(line@),
{
    let v = chars_of(line);
    let error = chars_of("ERROR:");
    let fatal = chars_of("FATAL:");
    let ready = chars_of("ready to accept connections");
    if contains(&v, &error) || contains(&v, &fatal) {
        Tone::Problem
    } else if contains(&v, &ready) {
        Tone::Ready
    } else {
        Tone::Plain
    }
}

/// Joins texts with a separator.
pub open spec fn joined(parts: Seq<Seq<char>>, sep: Seq<char>) -> Seq<char>
    decreases parts.len(),
{
    if parts.len() == 0 {
        Seq::empty()
    } else if parts.len() == 1 {
        parts[0]
    } else {
        joined(parts.drop_last(), sep) + sep + parts.last()
    }
}

pub open spec fn offline_text(images: Seq<Seq<char>>) -> Seq<char> {
    "Available offline: "@ + if images.len() == 0 {
        "No postgres images downloaded yet"@
    } else {
        joined(images, ", "@)
    }
}

/// The form's note on the images that can be used without a download.
pub fn offline_images(images: &Vec<String>) -> (m: String)
    ensures
        m@ == offline_text(images.deep_view()),
{
    let mut m = String::from_str("Available offline: ");
    if images.len() == 0 {
        append(&mut m, "No postgres images downloaded yet");
        return m;
    }
    let ghost start = m@;
    let ghost parts = images.deep_view();
    let mut i: usize = 0;
    while i < images.len()
        invariant
            i <= images@.len(),
            parts == images.deep_view(),
            images@.len() > 0,
            m@ == start + joined(parts.take(i as int), ", "@),
        decreases images@.len() - i,
    {
        if i > 0 {
            append(&mut m, ", ");
        }
        append(&mut m, images[i].as_str());
        proof {
            let t = parts.take(i + 1);
            assert(t.drop_last() == parts.take(i as int));
            assert(t.last() == images[i as int]@);
            if i == 0 {
                assert(joined(parts.take(0), ", "@) == Seq::<char>::empty());
                assert(joined(t, ", "@) == t[0]);
            }
        }
        i = i + 1;
    }
    assert(parts.take(images@.len() as int) == parts);
    m
}

/// A log line is shown cut at 2000 characters.
pub fn shown_line(line: &str) -> (m: String)
    ensures
        m@ == first_chars(line@, 2000),
{
    prefix_chars(line, 2000)
}

/// The confirmation that precedes a removal names the volume that is kept.
pub fn removal_description(db: &crate::model::Database) -> (m: String)
    ensures
        m@ == "Remove the stopped container and its Tusklet entry. The data volume "@
            + crate::model::volume_name_of(db@)
            + " will be kept in Docker. Type the database name to confirm."@,
{
    let mut m = String::from_str(
        "Remove the stopped container and its Tusklet entry. The data volume ",
    );
    let volume = db.volume_name();
    append(&mut m, volume.as_str());
    append(&mut m, " will be kept in Docker. Type the database name to confirm.");
    m
}

// ---------------------------------------------------------------------------
// Forms
// ---------------------------------------------------------------------------

/// The three forms: a project (new, or renaming one), a database (new, or the
/// settings of one), and the confirmation of a destructive action.
pub enum FormKind {
    Project(Option<String>),
    Database { project: String, editing: Option<String> },
    Confirm { action: crate::service::Action, name: String, description: String },
}

/// What a form shows: its title, the line under it, one label per field and
/// the label of its save button.
pub struct Presentation {
    pub title: String,
    pub subtitle: String,
    pub labels: Vec<String>,
    pub save: String,
}

fn strings(items: &[&str]) -> (v: Vec<String>)
    ensures
        v@.len() == items@.len(),
        forall|i: int| 0 <= i < items@.len() ==> #[trigger] v@[i]@ == items@[i]@,
{
    let mut v: Vec<String> = Vec::new();
    let mut i: usize = 0;
    while i < items.len()
        invariant
            i <= items@.len(),
            v@.len() == i,
            forall|k: int| 0 <= k < i ==> #[trigger] v@[k]@ == items@[k]@,
        decreases items@.len() - i,
    {
        v.push(String::from_str(items[i]));
        i = i + 1;
    }
    v
}

pub open spec fn database_labels() -> Seq<Seq<char>> {
    seq![
        "Display name"@,
        "PostgreSQL image tag"@,
        "Initial database"@,
        "PostgreSQL user"@,
        "Reserved host port (optional)"@,
        "PostgreSQL arguments (optional)"@,
    ]
}

impl FormKind {
    pub fn presentation(&self) -> (p: Presentation)
        ensures
            p.labels.deep_view() == match self {
                FormKind::Project(_) => seq!["Project name"@],
                FormKind::Database { .. } => database_labels(),
                FormKind::Confirm { .. } => seq!["Type the name to confirm"@],
            },
            p.title@ == match self {
                FormKind::Project(Some(_)) => "Rename project"@,
                FormKind::Project(None) => "New project"@,
                FormKind::Database { editing: Some(_), .. } => "Database settings"@,
                FormKind::Database { editing: None, .. } => "New database"@,
                FormKind::Confirm { .. } => "Confirm operation"@,
            },
            p.subtitle@ == match self {
                FormKind::Project(_) => "A place to keep related databases together."@,
                FormKind::Database { .. } => "One PostgreSQL container, with its own persistent data volume."@,
                FormKind::Confirm { description, .. } => description@,
            },
            p.save@ == match self {
                FormKind::Project(_) => "Save project"@,
                FormKind::Database { .. } => "Save database"@,
                FormKind::Confirm { .. } => "Confirm"@,
            },
    {
        match self {
            FormKind::Project(id) => {
                let labels = strings(&["Project name"]);
                assert(labels.deep_view() =~= seq!["Project name"@]);
                Presentation {
                    title: String::from_str(
                        if id.is_some() {
                            "Rename project"
                        } else {
                            "New project"
                        },
                    ),
                    subtitle: String::from_str("A place to keep related databases together."),
                    labels,
                    save: String::from_str("Save project"),
                }
            },
            FormKind::Database { editing, .. } => {
                let labels = strings(
                    &[
                        "Display name",
                        "PostgreSQL image tag",
                        "Initial database",
                        "PostgreSQL user",
                        "Reserved host port (optional)",
                        "PostgreSQL arguments (optional)",
                    ],
                );
                assert(labels.deep_view() =~= database_labels());
                Presentation {
                    title: String::from_str(
                        if editing.is_some() {
                            "Database settings"
                        } else {
                            "New database"
                        },
                    ),
                    subtitle: String::from_str(
                        "One PostgreSQL container, with its own persistent data volume.",
                    ),
                    labels,
                    save: String::from_str("Save database"),
                }
            },
            FormKind::Confirm { description, .. } => {
                let labels = strings(&["Type the name to confirm"]);
                assert(labels.deep_view() =~= seq!["Type the name to confirm"@]);
                Presentation {
                    title: String::from_str("Confirm operation"),
                    subtitle: description.clone(),
                    labels,
                    save: String::from_str("Confirm"),
                }
            },
        }
    }
}

/// The name of the listed project with this id, if any.
pub open spec fn project_name_of(projects: Seq<crate::model::Project>, id: Seq<char>) -> Option<Seq<char>>
    decreases projects.len(),
{
    if projects.len() == 0 {
        None
    } else if projects[0].id@ == id {
        Some(projects[0].name@)
    } else {
        project_name_of(projects.drop_first(), id)
    }
}

fn listed_project_name(s: &Snapshot, id: &String) -> (v: String)
    ensures
        v@ == match project_name_of(s.projects@, id@) {
            Some(n) => n,
            None => Seq::empty(),
        },
{
    let ghost ps = s.projects@;
    let mut k: usize = 0;
    assert(ps.skip(0) == ps);
    while k < s.projects.len()
        invariant
            k <= ps.len(),
            ps == s.projects@,
            project_name_of(ps, id@) == project_name_of(ps.skip(k as int), id@),
        decreases ps.len() - k,
    {
        assert(ps.skip(k as int)[0] == ps[k as int]);
        assert(ps.skip(k as int).drop_first() == ps.skip(k + 1));
        if s.projects[k].id == *id {
            assert(project_name_of(ps.skip(k as int), id@) == Some(ps[k as int].name@));
            return s.projects[k].name.clone();
        }
        k = k + 1;
    }
    assert(ps.skip(k as int).len() == 0);
    String::new()
}

/// The project form opens with the current name when renaming, blank
/// otherwise.
pub fn project_form_value(s: &Snapshot, editing: &Option<String>) -> (v: String)
    ensures
        v@ == match editing {
            Some(id) => match project_name_of(s.projects@, id@) {
                Some(n) => n,
                None => Seq::empty(),
            },
            None => Seq::<char>::empty(),
        },
{
    match editing {
        None => String::new(),
        Some(id) => listed_project_name(s, id),
    }
}

// ---------------------------------------------------------------------------
// Status texts
// ---------------------------------------------------------------------------

/// The workspace status line.
pub open spec fn status_text(ready: bool, s: Snapshot) -> Seq<char> {
    if !ready {
        "Connecting to workspace…"@
    } else if s.docker_error is Some {
        "● Docker unavailable"@
    } else {
        "● Docker connected · "@ + decimal(s.images@.len()) + " local images"@
    }
}

pub fn docker_status(ready: bool, s: &Snapshot) -> (m: String)
    ensures
        m@ == status_text(ready, *s),
{
    if !ready {
        String::from_str("Connecting to workspace…")
    } else if s.docker_error.is_some() {
        String::from_str("● Docker unavailable")
    } else {
        let mut m = String::from_str("● Docker connected · ");
        crate::text::push_decimal(&mut m, s.images.len() as u64);
        append(&mut m, " local images");
        m
    }
}

/// At most the first `n` characters.
pub open spec fn first_chars(s: Seq<char>, n: nat) -> Seq<char> {
    if s.len() > n {
        s.take(n as int)
    } else {
        s
    }
}

fn prefix_chars(s: &str, n: usize) -> (r: String)
    ensures
        r@ == first_chars(s@, n as nat),
{
    let v = chars_of(s);
    let end = if v.len() > n {
        n
    } else {
        v.len()
    };
    let r = string_of(&v, 0, end);
    assert(v@.subrange(0, end as int) == first_chars(s@, n as nat));
    r
}

/// The banner shown while Docker is unavailable: its error, cut at 240
/// characters.
pub fn docker_banner(error: &str) -> (m: String)
    ensures
        m@ == "Docker unavailable. Start Docker Desktop or Docker Engine. "@ + first_chars(error@, 240),
{
    let mut m = String::from_str("Docker unavailable. Start Docker Desktop or Docker Engine. ");
    let shown = prefix_chars(error, 240);
    append(&mut m, shown.as_str());
    m
}

/// A notice is shown cut at 1200 characters.
pub fn notice_text(message: &str) -> (m: String)
    ensures
        m@ == first_chars(message@, 1200),
{
    prefix_chars(message, 1200)
}

} // verus!
