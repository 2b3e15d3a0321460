//! How Tusklet talks to the Docker CLI: the exact arguments of each command,
//! how command output is read, and the decisions of the start, stop and remove
//! operations. Running the processes is left to the caller, who performs each
//! request of an [`Operation`] and hands back what Docker answered.
use crate::model::{
    active, config_rejection, container_name_of, image_of, postgres_args_outcome,
    rejection_text, volume_name_of, AbstractDatabase, ContainerState, Database, ModelError,
    Rejection,
};
use crate::text::{
    append, chars_of, decimal, has_prefix, insert_sorted, lines, lines_of, occurs, occurs_at, push_decimal,
    same_chars, starts_with, string_from, string_of, strictly_sorted, trim, trim_bounds, contains,
};
use vstd::prelude::*;

verus! {

#[verifier::external_type_specification]
#[verifier::external_body]
pub struct ExPathBuf(std::path::PathBuf);

/// The Docker CLI that Tusklet runs.
pub struct Docker {
    executable: std::path::PathBuf,
}

impl Docker {
    pub fn with_executable(executable: std::path::PathBuf) -> (d: Self)
        ensures
            d.executable() == executable,
    {
        Docker { executable }
    }

    pub closed spec fn executable(&self) -> std::path::PathBuf {
        self.executable
    }

    /// The program to launch.
    pub fn program(&self) -> (p: &std::path::PathBuf)
        ensures
            *p == self.executable(),
    {
        &self.executable
    }

    /// The containers' states, read from the rows that `docker ps` printed
    /// for [`states_args`].
    pub fn states(&self, rows: Vec<ContainerRow>) -> (states: ContainerStates)
        ensures
            states.map() == rows_map(rows@.map_values(|r: ContainerRow| row_view(r))),
    {
        parse_states(rows)
    }

    /// The cached `postgres` tags, read from the output of `docker image ls`
    /// for [`local_images_args`]: sorted, without duplicates or untagged images.
    pub fn local_images(&self, output: &str) -> (tags: Vec<String>)
        ensures
            strictly_sorted(tags.deep_view()),
            tags.deep_view().to_set() == listed_tags(output@),
    {
        postgres_tags(output)
    }

    /// Begins starting a database's container (see [`Operation`]).
    pub fn start(&self, db: Database, allow_pull: bool) -> (r: (Operation, Request))
        ensures
            r.0.db == db,
            r.0.kind == (Lifecycle::Start { allow_pull }),
            (r.0.stage, want_of(r.1)) == begin_of(Lifecycle::Start { allow_pull }),
            fits(r.1, db@),
    {
        Operation::begin(db, Lifecycle::Start { allow_pull })
    }

    /// Begins stopping a database's container.
    pub fn stop(&self, db: Database) -> (r: (Operation, Request))
        ensures
            r.0.db == db,
            r.0.kind == Lifecycle::Stop,
            (r.0.stage, want_of(r.1)) == begin_of(Lifecycle::Stop),
            fits(r.1, db@),
    {
        Operation::begin(db, Lifecycle::Stop)
    }

    /// Begins removing a database's stopped container.
    pub fn remove_container(&self, db: Database) -> (r: (Operation, Request))
        ensures
            r.0.db == db,
            r.0.kind == Lifecycle::Remove,
            (r.0.stage, want_of(r.1)) == begin_of(Lifecycle::Remove),
            fits(r.1, db@),
    {
        Operation::begin(db, Lifecycle::Remove)
    }

    /// Begins exporting a custom-format backup of a database (see [`Backup`]).
    pub fn dump(&self, db: Database) -> (r: (Backup, BackupRequest))
        ensures
            r.0.db == db,
            r.0.kind == Transfer::Dump,
            (r.0.stage, backup_want(r.1)) == backup_begin(db@),
    {
        Backup::begin(db, Transfer::Dump)
    }

    /// Begins restoring a backup into a database.
    pub fn restore(&self, db: Database) -> (r: (Backup, BackupRequest))
        ensures
            r.0.db == db,
            r.0.kind == Transfer::Restore,
            (r.0.stage, backup_want(r.1)) == backup_begin(db@),
    {
        Backup::begin(db, Transfer::Restore)
    }

    /// The `docker logs` arguments for a database's bounded log tail.
    pub fn logs(&self, db: &Database) -> (args: Vec<String>)
        ensures
            args.deep_view() == logs_args_of(db@),
    {
        logs_args(db)
    }
}

/// Where the Docker CLI is installed on macOS, in the order tried:
/// applications launched from the Finder may not inherit a shell's `PATH`.
pub open spec fn mac_candidates() -> Seq<Seq<char>> {
    seq![
        "/usr/local/bin/docker"@,
        "/opt/homebrew/bin/docker"@,
        "/Applications/Docker.app/Contents/Resources/bin/docker"@,
    ]
}

pub fn docker_candidates() -> (v: Vec<String>)
    ensures
        v.deep_view() == mac_candidates(),
{
    let mut v: Vec<String> = Vec::new();
    push_lit(&mut v, "/usr/local/bin/docker");
    push_lit(&mut v, "/opt/homebrew/bin/docker");
    push_lit(&mut v, "/Applications/Docker.app/Contents/Resources/bin/docker");
    assert(v.deep_view() =~= mac_candidates());
    v
}

/// The first candidate that is present, or `docker` (found through `PATH`).
pub open spec fn first_present(candidates: Seq<Seq<char>>, present: Seq<bool>) -> Seq<char>
    decreases candidates.len(),
{
    if candidates.len() == 0 || present.len() == 0 {
        "docker"@
    } else if present[0] {
        candidates[0]
    } else {
        first_present(candidates.drop_first(), present.drop_first())
    }
}

/// The CLI Tusklet runs by default; `present[i]` tells whether the i-th of
/// [`docker_candidates`] is a file.
pub fn default_executable(macos: bool, present: &Vec<bool>) -> (p: String)
    ensures
        p@ == if macos {
            first_present(mac_candidates(), present@)
        } else {
            "docker"@
        },
{
    if !macos {
        return String::from_str("docker");
    }
    let candidates = docker_candidates();
    let ghost c = candidates.deep_view();
    let mut i: usize = 0;
    assert(c.skip(0) == c && present@.skip(0) == present@);
    while i < candidates.len() && i < present.len()
        invariant
            c == candidates.deep_view(),
            c == mac_candidates(),
            macos,
            i <= c.len(),
            i <= present@.len(),
            first_present(c, present@) == first_present(c.skip(i as int), present@.skip(i as int)),
        decreases c.len() - i,
    {
        assert(c.skip(i as int).drop_first() == c.skip(i + 1));
        assert(present@.skip(i as int).drop_first() == present@.skip(i + 1));
        if present[i] {
            assert(c.skip(i as int)[0] == c[i as int]);
            assert(present@.skip(i as int)[0]);
            assert(c[i as int] == candidates[i as int]@);
            assert(first_present(c.skip(i as int), present@.skip(i as int)) == c[i as int]);
            return candidates[i].clone();
        }
        i = i + 1;
    }
    assert(c.skip(i as int).len() == 0 || present@.skip(i as int).len() == 0);
    String::from_str("docker")
}

// ---------------------------------------------------------------------------
// Errors
// ---------------------------------------------------------------------------

/// Why a Docker operation did not succeed.
#[derive(Clone, Debug, PartialEq, Eq)]
pub enum DockerError {
    /// The CLI could not be started; the system's reason.
    Launch(String),
    /// The command did not finish in time and was killed.
    TimedOut,
    /// Reading the command's output failed.
    Output,
    /// The command failed; its trimmed diagnostic output.
    Failed(String),
    /// A line of `docker ps` output was not the expected JSON row; the
    /// parser's reason.
    UnexpectedResponse(String),
    /// The image (its full name) is not cached and downloads are off.
    ImageUnavailable(String),
    /// The container's owner label is not this database.
    NotOwned,
    /// The container is still running.
    StopFirst,
    /// The configuration cannot become a container.
    Config(ModelError),
    /// A message that was already rendered (e.g. with secrets redacted).
    Other(String),
    /// A backup destination already exists.
    DestinationExists,
    /// A backup to restore is empty.
    EmptyBackup,
}

/// A `DockerError` as a mathematical value.
pub enum DockerFailure {
    Launch(Seq<char>),
    TimedOut,
    Output,
    Failed(Seq<char>),
    UnexpectedResponse(Seq<char>),
    ImageUnavailable(Seq<char>),
    NotOwned,
    StopFirst,
    Config(Rejection),
    Other(Seq<char>),
    DestinationExists,
    EmptyBackup,
}

impl View for DockerError {
    type V = DockerFailure;

    open spec fn view(&self) -> DockerFailure {
        match self {
            DockerError::Launch(d) => DockerFailure::Launch(d@),
            DockerError::TimedOut => DockerFailure::TimedOut,
            DockerError::Output => DockerFailure::Output,
            DockerError::Failed(s) => DockerFailure::Failed(s@),
            DockerError::UnexpectedResponse(d) => DockerFailure::UnexpectedResponse(d@),
            DockerError::ImageUnavailable(s) => DockerFailure::ImageUnavailable(s@),
            DockerError::NotOwned => DockerFailure::NotOwned,
            DockerError::StopFirst => DockerFailure::StopFirst,
            DockerError::Config(e) => DockerFailure::Config(e@),
            DockerError::Other(s) => DockerFailure::Other(s@),
            DockerError::DestinationExists => DockerFailure::DestinationExists,
            DockerError::EmptyBackup => DockerFailure::EmptyBackup,
        }
    }
}

pub open spec fn failure_text(f: DockerFailure) -> Seq<char> {
    match f {
        DockerFailure::Launch(reason) =>
            "Could not launch Docker. Install Docker Desktop or Docker Engine and make sure the docker CLI is available.: "@
            + reason,
        DockerFailure::TimedOut =>
            "Docker timed out. Check the daemon and retry. A timed-out container operation may still have completed; refresh its state."@,
        DockerFailure::Output => "Could not read Docker output."@,
        DockerFailure::Failed(detail) => "Docker operation failed: "@ + detail,
        DockerFailure::UnexpectedResponse(reason) => "Unexpected response from Docker.: "@ + reason,
        DockerFailure::ImageUnavailable(image) => "Image "@ + image
            + " is not available locally. Turn off offline mode to download it."@,
        DockerFailure::NotOwned =>
            "Refusing to change a container not owned by this Tusklet database."@,
        DockerFailure::StopFirst => "Stop the database first."@,
        DockerFailure::Config(r) => rejection_text(r),
        DockerFailure::Other(text) => text,
        DockerFailure::DestinationExists => "That file already exists. Choose a new filename."@,
        DockerFailure::EmptyBackup => "The backup file is empty."@,
    }
}

/// The first line of a failure's text: a failure that carries the system's
/// reason below its own message (a launch failure, an unreadable response)
/// shows only that message.
pub open spec fn headline_text(f: DockerFailure) -> Seq<char> {
    match f {
        DockerFailure::Launch(_) =>
            "Could not launch Docker. Install Docker Desktop or Docker Engine and make sure the docker CLI is available."@,
        DockerFailure::UnexpectedResponse(_) => "Unexpected response from Docker."@,
        _ => failure_text(f),
    }
}

impl DockerError {
    /// The failure's text without the system's reason (see [`headline_text`]).
    pub fn headline(&self) -> (m: String)
        ensures
            m@ == headline_text(self@),
    {
        match self {
            DockerError::Launch(_) => String::from_str(
                "Could not launch Docker. Install Docker Desktop or Docker Engine and make sure the docker CLI is available.",
            ),
            DockerError::UnexpectedResponse(_) => String::from_str("Unexpected response from Docker."),
            _ => self.message(),
        }
    }

    /// The message shown to the user.
    pub fn message(&self) -> (m: String)
        ensures
            m@ == failure_text(self@),
    {
        match self {
            DockerError::Launch(reason) => {
                let mut m = String::from_str(
                    "Could not launch Docker. Install Docker Desktop or Docker Engine and make sure the docker CLI is available.: ",
                );
                append(&mut m, reason.as_str());
                m
            },
            DockerError::TimedOut => String::from_str(
                "Docker timed out. Check the daemon and retry. A timed-out container operation may still have completed; refresh its state.",
            ),
            DockerError::Output => String::from_str("Could not read Docker output."),
            DockerError::Failed(detail) => {
                let mut m = String::from_str("Docker operation failed: ");
                append(&mut m, detail.as_str());
                m
            },
            DockerError::UnexpectedResponse(reason) => {
                let mut m = String::from_str("Unexpected response from Docker.: ");
                append(&mut m, reason.as_str());
                m
            },
            DockerError::ImageUnavailable(image) => {
                let mut m = String::from_str("Image ");
                append(&mut m, image.as_str());
                append(&mut m, " is not available locally. Turn off offline mode to download it.");
                m
            },
            DockerError::NotOwned => String::from_str(
                "Refusing to change a container not owned by this Tusklet database.",
            ),
            DockerError::StopFirst => String::from_str("Stop the database first."),
            DockerError::Config(e) => e.message(),
            DockerError::Other(text) => text.clone(),
            DockerError::DestinationExists => String::from_str(
                "That file already exists. Choose a new filename.",
            ),
            DockerError::EmptyBackup => String::from_str("The backup file is empty."),
        }
    }
}

// ---------------------------------------------------------------------------
// Command outcomes
// ---------------------------------------------------------------------------

/// What a finished command yields: its standard output followed by its
/// standard error on success; otherwise a failure that quotes the trimmed
/// standard error, or the trimmed standard output when the former is blank.
pub open spec fn command_outcome_of(success: bool, out: Seq<char>, err: Seq<char>) -> Result<
    Seq<char>,
    DockerFailure,
> {
    if !success {
        Err(
            DockerFailure::Failed(
                if trim(err).len() == 0 {
                    trim(out)
                } else {
                    trim(err)
                },
            ),
        )
    } else {
        Ok(out + err)
    }
}

pub fn command_outcome(success: bool, out: String, err: String) -> (r: Result<String, DockerError>)
    ensures
        match command_outcome_of(success, out@, err@) {
            Ok(text) => r matches Ok(s) && s@ == text,
            Err(f) => r matches Err(e) && e@ == f,
        },
{
    if !success {
        let e = chars_of(err.as_str());
        let (a, b) = trim_bounds(&e);
        if a == b {
            let o = chars_of(out.as_str());
            let (c, d) = trim_bounds(&o);
            return Err(DockerError::Failed(string_of(&o, c, d)));
        }
        return Err(DockerError::Failed(string_of(&e, a, b)));
    }
    let mut result = out;
    append(&mut result, err.as_str());
    Ok(result)
}

/// How long an ordinary Docker command may run, in seconds.
pub const COMMAND_TIMEOUT_SECS: u64 = 20;

/// How long an image download or a backup transfer may run, in seconds.
pub const TRANSFER_TIMEOUT_SECS: u64 = 1800;

/// The time limit of a command: transfers get the long one.
pub fn timeout_secs(transfer: bool) -> (t: u64)
    ensures
        t == if transfer {
            TRANSFER_TIMEOUT_SECS
        } else {
            COMMAND_TIMEOUT_SECS
        },
{
    if transfer {
        TRANSFER_TIMEOUT_SECS
    } else {
        COMMAND_TIMEOUT_SECS
    }
}

/// At most this many bytes of a command's diagnostic output are kept.
pub const OUTPUT_LIMIT: usize = 2097152;

/// The last `limit` items of `s` (all of `s` when it is shorter).
pub open spec fn last_at_most<T>(s: Seq<T>, limit: nat) -> Seq<T> {
    if s.len() > limit {
        s.skip(s.len() - limit)
    } else {
        s
    }
}

/// Appends a chunk read from a pipe, keeping only the latest `OUTPUT_LIMIT`
/// bytes.
pub fn append_capped(output: &mut Vec<u8>, chunk: &[u8])
    requires
        old(output)@.len() <= OUTPUT_LIMIT,
    ensures
        final(output)@ == last_at_most(old(output)@ + chunk@, OUTPUT_LIMIT as nat),
{
    let ghost whole = old(output)@ + chunk@;
    let n = output.len();
    if chunk.len() <= OUTPUT_LIMIT - n {
        let mut i: usize = 0;
        while i < chunk.len()
            invariant
                i <= chunk@.len(),
                output@ == old(output)@ + chunk@.take(i as int),
            decreases chunk@.len() - i,
        {
            output.push(chunk[i]);
            assert(chunk@.take(i + 1) == chunk@.take(i as int).push(chunk@[i as int]));
            i = i + 1;
        }
        assert(chunk@.take(chunk@.len() as int) == chunk@);
        return;
    }
    // More than the limit in total: drop the first `drop` bytes of `whole`.
    let excess = chunk.len() - (OUTPUT_LIMIT - n);
    let ghost drop = excess as int;
    assert(drop == whole.len() - OUTPUT_LIMIT);
    let mut kept: Vec<u8> = Vec::new();
    // First what is kept of `output`, then what is kept of `chunk`.
    if excess < n {
        let mut j: usize = excess;
        while j < n
            invariant
                n == output@.len(),
                whole == output@ + chunk@,
                excess <= j <= n,
                kept@ == whole.subrange(excess as int, j as int),
            decreases n - j,
        {
            kept.push(output[j]);
            assert(whole.subrange(excess as int, j + 1) == whole.subrange(excess as int, j as int).push(
                whole[j as int],
            ));
            j = j + 1;
        }
    }
    let mut k: usize = if excess < n {
        0
    } else {
        excess - n
    };
    assert(kept@ == whole.subrange(drop as int, n + k));
    while k < chunk.len()
        invariant
            n == output@.len(),
            whole == output@ + chunk@,
            drop == excess,
            k <= chunk@.len(),
            drop <= n + k,
            kept@ == whole.subrange(drop as int, n + k),
        decreases chunk@.len() - k,
    {
        kept.push(chunk[k]);
        assert(whole.subrange(drop as int, n + k + 1) == whole.subrange(drop as int, n + k).push(
            whole[n + k],
        ));
        k = k + 1;
    }
    assert(kept@ == whole.skip(whole.len() - OUTPUT_LIMIT));
    *output = kept;
}

// ---------------------------------------------------------------------------
// Secrets in messages
// ---------------------------------------------------------------------------

/// `text.replace(secret, "[redacted]")`: non-overlapping occurrences, left to
/// right; an empty secret matches before every character and at the end.
pub open spec fn redacted(text: Seq<char>, secret: Seq<char>) -> Seq<char>
    decreases text.len(), (if secret.len() == 0 { 1int } else { 0int }),
{
    if secret.len() == 0 {
        if text.len() == 0 {
            "[redacted]"@
        } else {
            "[redacted]"@ + seq![text[0]] + redacted(text.drop_first(), secret)
        }
    } else if text.len() < secret.len() {
        text
    } else if text.take(secret.len() as int) == secret {
        "[redacted]"@ + redacted(text.skip(secret.len() as int), secret)
    } else {
        seq![text[0]] + redacted(text.drop_first(), secret)
    }
}

proof fn lemma_redacted_skip(text: Seq<char>, secret: Seq<char>, i: int)
    requires
        0 <= i < text.len(),
        secret.len() > 0,
        text.len() - i >= secret.len() ==> text.skip(i).take(secret.len() as int) != secret,
    ensures
        redacted(text.skip(i), secret) == seq![text[i]] + redacted(text.skip(i + 1), secret),
{
    let t = text.skip(i);
    assert(t.drop_first() == text.skip(i + 1));
    if t.len() < secret.len() {
        assert(redacted(t, secret) == t);
        assert(redacted(text.skip(i + 1), secret) == text.skip(i + 1));
        assert(t == seq![text[i]] + text.skip(i + 1));
    }
}

/// No character of `s` is `c`.
pub open spec fn lacks(s: Seq<char>, c: char) -> bool {
    forall|i: int| 0 <= i < s.len() ==> s[i] != c
}

/// Redaction only inserts text that begins with `[`: a prefix of the result
/// without `[` is a prefix of the original text.
proof fn lemma_redacted_plain_prefix(t: Seq<char>, secret: Seq<char>, p: Seq<char>)
    requires
        secret.len() > 0,
        lacks(p, '['),
        p.len() <= redacted(t, secret).len(),
        redacted(t, secret).take(p.len() as int) == p,
    ensures
        p.len() <= t.len(),
        t.take(p.len() as int) == p,
    decreases t.len(),
{
    let r = redacted(t, secret);
    if p.len() == 0 {
        assert(t.take(0) == p);
    } else if t.len() < secret.len() {
        assert(r == t);
    } else if t.take(secret.len() as int) == secret {
        reveal_strlit("[redacted]");
        assert(r[0] == '[');
        assert(p[0] == r.take(p.len() as int)[0]);
    } else {
        let t1 = t.drop_first();
        let r1 = redacted(t1, secret);
        let p1 = p.drop_first();
        assert(r == seq![t[0]] + r1);
        assert(p[0] == t[0]) by {
            assert(p[0] == r.take(p.len() as int)[0]);
        }
        assert(r1.take(p1.len() as int) == p1) by {
            assert forall|k: int| 0 <= k < p1.len() implies r1.take(p1.len() as int)[k] == p1[k] by {
                assert(p1[k] == p[k + 1]);
                assert(p[k + 1] == r.take(p.len() as int)[k + 1]);
                assert(r[k + 1] == r1[k]);
            }
        }
        assert(lacks(p1, '[')) by {
            assert forall|k: int| 0 <= k < p1.len() implies p1[k] != '[' by {
                assert(p1[k] == p[k + 1]);
            }
        }
        lemma_redacted_plain_prefix(t1, secret, p1);
        assert(t.take(p.len() as int) =~= p) by {
            assert forall|k: int| 0 <= k < p.len() implies t.take(p.len() as int)[k] == p[k] by {
                if k > 0 {
                    assert(t[k] == t1[k - 1]);
                    assert(t1.take(p1.len() as int)[k - 1] == p1[k - 1]);
                }
            }
        }
    }
}

/// A secret that holds neither bracket and is no part of `[redacted]` does not
/// occur in a redacted text.
pub proof fn redaction_hides_the_secret(text: Seq<char>, secret: Seq<char>)
    requires
        secret.len() > 0,
        lacks(secret, '['),
        lacks(secret, ']'),
        !occurs("[redacted]"@, secret),
    ensures
        !occurs(redacted(text, secret), secret),
    decreases text.len(),
{
    let r = redacted(text, secret);
    let n = secret.len() as int;
    if text.len() < n {
        assert(r == text);
    } else if text.take(n) == secret {
        let rest = text.skip(n);
        let rr = redacted(rest, secret);
        let red = "[redacted]"@;
        reveal_strlit("[redacted]");
        redaction_hides_the_secret(rest, secret);
        assert(r == red + rr);
        assert forall|i: int| !occurs_at(r, secret, i) by {
            if occurs_at(r, secret, i) {
                if i >= 10 {
                    assert(rr.subrange(i - 10, i - 10 + n) =~= r.subrange(i, i + n));
                    assert(occurs_at(rr, secret, i - 10));
                } else if i + n > 9 {
                    assert(secret[9 - i] == r.subrange(i, i + n)[9 - i]);
                    assert(r[9] == ']');
                } else {
                    assert(red.subrange(i, i + n) =~= r.subrange(i, i + n));
                    assert(occurs_at(red, secret, i));
                }
            }
        }
    } else {
        let t1 = text.drop_first();
        let r1 = redacted(t1, secret);
        redaction_hides_the_secret(t1, secret);
        assert(r == seq![text[0]] + r1);
        assert forall|i: int| !occurs_at(r, secret, i) by {
            if occurs_at(r, secret, i) {
                if i >= 1 {
                    assert(r1.subrange(i - 1, i - 1 + n) =~= r.subrange(i, i + n));
                    assert(occurs_at(r1, secret, i - 1));
                } else {
                    assert(r.take(n) =~= r.subrange(0, n));
                    lemma_redacted_plain_prefix(text, secret, secret);
                }
            }
        }
    }
}

/// Replaces every occurrence of `secret` in `text` with `[redacted]`.
pub fn redact(text: &str, secret: &str) -> (r: String)
    ensures
        r@ == redacted(text@, secret@),
    decreases text@.len(),
{
    let t = chars_of(text);
    let s = chars_of(secret);
    let mut out = String::new();
    let mut i: usize = 0;
    assert(t@.skip(0) == t@);
    if s.len() == 0 {
        while i < t.len()
            invariant
                i <= t.len(),
                s@.len() == 0,
                out@ + redacted(t@.skip(i as int), s@) == redacted(t@, s@),
            decreases t.len() - i,
        {
            proof {
                assert(t@.skip(i as int).drop_first() == t@.skip(i + 1));
            }
            append(&mut out, "[redacted]");
            crate::text::push_char(&mut out, t[i]);
            proof {
                assert(out@ + redacted(t@.skip(i + 1), s@) =~= redacted(t@, s@));
            }
            i = i + 1;
        }
        append(&mut out, "[redacted]");
        proof {
            assert(t@.skip(i as int).len() == 0);
        }
        assert(t@.skip(0) == t@);
        return out;
    }
    assert(t@.skip(0) == t@);
    while i < t.len()
        invariant
            i <= t.len(),
            s@.len() > 0,
            s@ == secret@,
            out@ + redacted(t@.skip(i as int), s@) == redacted(t@, s@),
        decreases t.len() - i,
    {
        let mut matched = s.len() <= t.len() - i;
        let mut j: usize = 0;
        while matched && j < s.len()
            invariant
                i < t.len(),
                j <= s.len(),
                matched ==> i + s.len() <= t.len(),
                matched ==> forall|k: int| 0 <= k < j ==> t@[i + k] == s@[k],
                !matched ==> (t@.len() - i >= s@.len() ==> t@.skip(i as int).take(s@.len() as int)
                    != s@),
            decreases s.len() - j,
        {
            if t[i + j] != s[j] {
                matched = false;
                assert(t@.skip(i as int).take(s@.len() as int)[j as int] == t@[i + j]);
            }
            j = j + 1;
        }
        if matched {
            proof {
                assert(t@.skip(i as int).take(s@.len() as int) =~= s@);
                assert(t@.skip(i as int).skip(s@.len() as int) == t@.skip(i + s@.len()));
            }
            append(&mut out, "[redacted]");
            proof {
                assert(out@ + redacted(t@.skip(i + s@.len()), s@) =~= redacted(t@, s@));
            }
            i = i + s.len();
        } else {
            proof {
                lemma_redacted_skip(t@, s@, i as int);
            }
            crate::text::push_char(&mut out, t[i]);
            proof {
                assert(out@ + redacted(t@.skip(i + 1), s@) =~= redacted(t@, s@));
            }
            i = i + 1;
        }
    }
    proof {
        assert(t@.skip(i as int).len() == 0);
        assert(redacted(t@.skip(i as int), s@) == t@.skip(i as int));
        assert(out@ + t@.skip(i as int) =~= out@);
    }
    out
}

// ---------------------------------------------------------------------------
// Command arguments
// ---------------------------------------------------------------------------

fn push_lit(v: &mut Vec<String>, s: &str)
    ensures
        final(v).deep_view() == old(v).deep_view().push(s@),
{
    let ghost before = v.deep_view();
    v.push(String::from_str(s));
    assert(v.deep_view() =~= before.push(s@));
}

fn push_string(v: &mut Vec<String>, s: String)
    ensures
        final(v).deep_view() == old(v).deep_view().push(s@),
{
    let ghost before = v.deep_view();
    let ghost sv = s@;
    v.push(s);
    assert(v.deep_view() =~= before.push(sv));
}

fn concat_strings(v: &mut Vec<String>, extra: Vec<String>)
    ensures
        final(v).deep_view() == old(v).deep_view() + extra.deep_view(),
{
    let ghost before = v.deep_view();
    let mut i: usize = 0;
    while i < extra.len()
        invariant
            i <= extra.len(),
            v.deep_view() == before + extra.deep_view().take(i as int),
        decreases extra.len() - i,
    {
        push_string(v, extra[i].clone());
        assert(extra.deep_view().take(i + 1) == extra.deep_view().take(i as int).push(
            extra.deep_view()[i as int],
        ));
        i = i + 1;
    }
    assert(extra.deep_view().take(extra.len() as int) == extra.deep_view());
}

/// `docker ps --all --filter label=dev.tusklet.managed=true --format '{{json .}}'`:
/// every container Tusklet created, stopped ones included, one JSON row each.
pub open spec fn states_args_of() -> Seq<Seq<char>> {
    seq![
        "ps"@,
        "--all"@,
        "--filter"@,
        "label=dev.tusklet.managed=true"@,
        "--format"@,
        "{{json .}}"@,
    ]
}

pub fn states_args() -> (v: Vec<String>)
    ensures
        v.deep_view() == states_args_of(),
{
    let mut v: Vec<String> = Vec::new();
    push_lit(&mut v, "ps");
    push_lit(&mut v, "--all");
    push_lit(&mut v, "--filter");
    push_lit(&mut v, "label=dev.tusklet.managed=true");
    push_lit(&mut v, "--format");
    push_lit(&mut v, "{{json .}}");
    assert(v.deep_view() =~= states_args_of());
    v
}

/// `docker image ls --format '{{.Repository}}:{{.Tag}}'`: only the local cache,
/// no registry.
pub open spec fn images_args_of() -> Seq<Seq<char>> {
    seq!["image"@, "ls"@, "--format"@, "{{.Repository}}:{{.Tag}}"@]
}

pub fn local_images_args() -> (v: Vec<String>)
    ensures
        v.deep_view() == images_args_of(),
{
    let mut v: Vec<String> = Vec::new();
    push_lit(&mut v, "image");
    push_lit(&mut v, "ls");
    push_lit(&mut v, "--format");
    push_lit(&mut v, "{{.Repository}}:{{.Tag}}");
    assert(v.deep_view() =~= images_args_of());
    v
}

pub open spec fn pull_args_of(db: AbstractDatabase) -> Seq<Seq<char>> {
    seq!["pull"@, image_of(db)]
}

pub fn pull_args(db: &Database) -> (v: Vec<String>)
    ensures
        v.deep_view() == pull_args_of(db@),
{
    let mut v: Vec<String> = Vec::new();
    push_lit(&mut v, "pull");
    push_string(&mut v, db.image());
    assert(v.deep_view() =~= pull_args_of(db@));
    v
}

/// The `docker create` arguments before the PostgreSQL server arguments. The
/// port is published on 127.0.0.1 only; data lives in the named volume with an
/// explicit `PGDATA`; the password is passed by variable name only, its value
/// comes from the environment; images are never pulled by `create`.
pub open spec fn container_args_of(db: AbstractDatabase) -> Seq<Seq<char>> {
    seq![
        "create"@,
        "--name"@,
        container_name_of(db),
        "--label"@,
        "dev.tusklet.managed=true"@,
        "--label"@,
        "dev.tusklet.database="@ + db.id,
        "--publish"@,
        "127.0.0.1:"@ + decimal(db.port as nat) + ":5432"@,
        "--mount"@,
        "type=volume,source="@ + volume_name_of(db) + ",target=/var/lib/postgresql"@,
        "--env"@,
        "PGDATA=/var/lib/postgresql/tusklet"@,
        "--env"@,
        "POSTGRES_PASSWORD"@,
        "--env"@,
        "POSTGRES_USER="@ + db.config.user,
        "--env"@,
        "POSTGRES_DB="@ + db.config.database,
        "--health-cmd"@,
        "pg_isready -U "@ + db.config.user + " -d "@ + db.config.database,
        "--health-interval"@,
        "3s"@,
        "--health-timeout"@,
        "3s"@,
        "--health-retries"@,
        "20"@,
        "--log-opt"@,
        "max-size=10m"@,
        "--log-opt"@,
        "max-file=3"@,
        "--pull=never"@,
        image_of(db),
        "postgres"@,
    ]
}

/// `docker create` for a valid configuration: the container arguments followed
/// by the checked server arguments.
pub open spec fn create_args_outcome(db: AbstractDatabase) -> Result<Seq<Seq<char>>, Rejection> {
    match config_rejection(db.config) {
        Some(r) => Err(r),
        None => match postgres_args_outcome(db.config.command) {
            Ok(extra) => Ok(container_args_of(db) + extra),
            Err(r) => Err(r),
        },
    }
}

#[verifier::spinoff_prover]
pub fn create_args(db: &Database) -> (r: Result<Vec<String>, ModelError>)
    ensures
        match create_args_outcome(db@) {
            Ok(args) => r matches Ok(v) && v.deep_view() == args,
            Err(rej) => r matches Err(e) && e@ == rej,
        },
{
    db.config.validate()?;
    let mut v: Vec<String> = Vec::new();
    push_lit(&mut v, "create");
    push_lit(&mut v, "--name");
    push_string(&mut v, db.container_name());
    push_lit(&mut v, "--label");
    push_lit(&mut v, "dev.tusklet.managed=true");
    push_lit(&mut v, "--label");
    let mut owner = String::from_str("dev.tusklet.database=");
    append(&mut owner, db.id.as_str());
    push_string(&mut v, owner);
    push_lit(&mut v, "--publish");
    let mut publish = String::from_str("127.0.0.1:");
    push_decimal(&mut publish, db.port as u64);
    append(&mut publish, ":5432");
    push_string(&mut v, publish);
    push_lit(&mut v, "--mount");
    let mut mount = String::from_str("type=volume,source=");
    let volume = db.volume_name();
    append(&mut mount, volume.as_str());
    append(&mut mount, ",target=/var/lib/postgresql");
    push_string(&mut v, mount);
    push_lit(&mut v, "--env");
    push_lit(&mut v, "PGDATA=/var/lib/postgresql/tusklet");
    push_lit(&mut v, "--env");
    push_lit(&mut v, "POSTGRES_PASSWORD");
    push_lit(&mut v, "--env");
    let mut user = String::from_str("POSTGRES_USER=");
    append(&mut user, db.config.user.as_str());
    push_string(&mut v, user);
    push_lit(&mut v, "--env");
    let mut database = String::from_str("POSTGRES_DB=");
    append(&mut database, db.config.database.as_str());
    push_string(&mut v, database);
    push_lit(&mut v, "--health-cmd");
    let mut health = String::from_str("pg_isready -U ");
    append(&mut health, db.config.user.as_str());
    append(&mut health, " -d ");
    append(&mut health, db.config.database.as_str());
    push_string(&mut v, health);
    push_lit(&mut v, "--health-interval");
    push_lit(&mut v, "3s");
    push_lit(&mut v, "--health-timeout");
    push_lit(&mut v, "3s");
    push_lit(&mut v, "--health-retries");
    push_lit(&mut v, "20");
    push_lit(&mut v, "--log-opt");
    push_lit(&mut v, "max-size=10m");
    push_lit(&mut v, "--log-opt");
    push_lit(&mut v, "max-file=3");
    push_lit(&mut v, "--pull=never");
    push_string(&mut v, db.image());
    push_lit(&mut v, "postgres");
    assert(v.deep_view() =~= container_args_of(db@));
    let extra = db.config.postgres_args()?;
    concat_strings(&mut v, extra);
    Ok(v)
}

/// `docker inspect` of the container's `dev.tusklet.database` label.
pub open spec fn owner_args_of(db: AbstractDatabase) -> Seq<Seq<char>> {
    seq![
        "inspect"@,
        "--format"@,
        "{{ index .Config.Labels \"dev.tusklet.database\" }}"@,
        container_name_of(db),
    ]
}

pub fn owner_args(db: &Database) -> (v: Vec<String>)
    ensures
        v.deep_view() == owner_args_of(db@),
{
    let mut v: Vec<String> = Vec::new();
    push_lit(&mut v, "inspect");
    push_lit(&mut v, "--format");
    push_lit(&mut v, "{{ index .Config.Labels \"dev.tusklet.database\" }}");
    push_string(&mut v, db.container_name());
    assert(v.deep_view() =~= owner_args_of(db@));
    v
}

/// The container belongs to the database when the inspected label, trimmed,
/// is the database's id.
pub open spec fn owned_by(output: Seq<char>, db: AbstractDatabase) -> bool {
    trim(output) == db.id
}

pub fn owner_matches(output: &str, db: &Database) -> (b: bool)
    ensures
        b == owned_by(output@, db@),
{
    let o = chars_of(output);
    let (a, z) = trim_bounds(&o);
    let id = chars_of(db.id.as_str());
    let t = crate::text::string_of(&o, a, z);
    let tc = chars_of(t.as_str());
    same_chars(&tc, &id)
}

pub open spec fn start_args_of(db: AbstractDatabase) -> Seq<Seq<char>> {
    seq!["start"@, container_name_of(db)]
}

pub fn start_args(db: &Database) -> (v: Vec<String>)
    ensures
        v.deep_view() == start_args_of(db@),
{
    let mut v: Vec<String> = Vec::new();
    push_lit(&mut v, "start");
    push_string(&mut v, db.container_name());
    assert(v.deep_view() =~= start_args_of(db@));
    v
}

/// Stopping waits ten seconds for PostgreSQL to shut down; the data stays.
pub open spec fn stop_args_of(db: AbstractDatabase) -> Seq<Seq<char>> {
    seq!["stop"@, "--time"@, "10"@, container_name_of(db)]
}

pub fn stop_args(db: &Database) -> (v: Vec<String>)
    ensures
        v.deep_view() == stop_args_of(db@),
{
    let mut v: Vec<String> = Vec::new();
    push_lit(&mut v, "stop");
    push_lit(&mut v, "--time");
    push_lit(&mut v, "10");
    push_string(&mut v, db.container_name());
    assert(v.deep_view() =~= stop_args_of(db@));
    v
}

/// `--volumes` removes only anonymous volumes; the named data volume stays.
pub open spec fn remove_args_of(db: AbstractDatabase) -> Seq<Seq<char>> {
    seq!["rm"@, "--volumes"@, container_name_of(db)]
}

pub fn remove_args(db: &Database) -> (v: Vec<String>)
    ensures
        v.deep_view() == remove_args_of(db@),
{
    let mut v: Vec<String> = Vec::new();
    push_lit(&mut v, "rm");
    push_lit(&mut v, "--volumes");
    push_string(&mut v, db.container_name());
    assert(v.deep_view() =~= remove_args_of(db@));
    v
}

/// A bounded tail of 400 timestamped log lines.
pub open spec fn logs_args_of(db: AbstractDatabase) -> Seq<Seq<char>> {
    seq!["logs"@, "--tail"@, "400"@, "--timestamps"@, container_name_of(db)]
}

pub fn logs_args(db: &Database) -> (v: Vec<String>)
    ensures
        v.deep_view() == logs_args_of(db@),
{
    let mut v: Vec<String> = Vec::new();
    push_lit(&mut v, "logs");
    push_lit(&mut v, "--tail");
    push_lit(&mut v, "400");
    push_lit(&mut v, "--timestamps");
    push_string(&mut v, db.container_name());
    assert(v.deep_view() =~= logs_args_of(db@));
    v
}

/// A custom-format `pg_dump` run inside the container, written to standard output.
pub open spec fn dump_args_of(db: AbstractDatabase) -> Seq<Seq<char>> {
    seq![
        "exec"@,
        container_name_of(db),
        "pg_dump"@,
        "--format=custom"@,
        "--no-owner"@,
        "--no-privileges"@,
        "-U"@,
        db.config.user,
        "--dbname"@,
        db.config.database,
    ]
}

pub fn dump_args(db: &Database) -> (v: Vec<String>)
    ensures
        v.deep_view() == dump_args_of(db@),
{
    let mut v: Vec<String> = Vec::new();
    push_lit(&mut v, "exec");
    push_string(&mut v, db.container_name());
    push_lit(&mut v, "pg_dump");
    push_lit(&mut v, "--format=custom");
    push_lit(&mut v, "--no-owner");
    push_lit(&mut v, "--no-privileges");
    push_lit(&mut v, "-U");
    push_string(&mut v, db.config.user.clone());
    push_lit(&mut v, "--dbname");
    push_string(&mut v, db.config.database.clone());
    assert(v.deep_view() =~= dump_args_of(db@));
    v
}

/// A backup whose first five bytes read `PGDMP` is a custom-format archive.
pub open spec fn is_custom_archive(header: Seq<u8>) -> bool {
    header.len() >= 5 && header.take(5) == seq![80u8, 71u8, 68u8, 77u8, 80u8]
}

/// Restores run in one transaction and stop at the first error: `pg_restore`
/// for custom-format archives, `psql` for plain SQL; both read standard input.
pub open spec fn restore_args_of(db: AbstractDatabase, custom: bool) -> Seq<Seq<char>> {
    seq!["exec"@, "--interactive"@, container_name_of(db)] + if custom {
        seq![
            "pg_restore"@,
            "--single-transaction"@,
            "--exit-on-error"@,
            "--no-owner"@,
            "--no-privileges"@,
            "-U"@,
            db.config.user,
            "--dbname"@,
            db.config.database,
        ]
    } else {
        seq![
            "psql"@,
            "-X"@,
            "--single-transaction"@,
            "--set"@,
            "ON_ERROR_STOP=1"@,
            "-U"@,
            db.config.user,
            "--dbname"@,
            db.config.database,
        ]
    }
}

/// The restore command for a backup that begins with `header` (the first bytes
/// read from it, at most five are looked at); an empty backup is refused.
pub fn restore_args(db: &Database, header: &[u8]) -> (r: Result<Vec<String>, DockerError>)
    ensures
        header@.len() == 0 ==> (r matches Err(e) && e@ == DockerFailure::EmptyBackup),
        header@.len() > 0 ==> (r matches Ok(v) && v.deep_view() == restore_args_of(
            db@,
            is_custom_archive(header@),
        )),
{
    if header.len() == 0 {
        return Err(DockerError::EmptyBackup);
    }
    let custom = header.len() >= 5 && header[0] == 80 && header[1] == 71 && header[2] == 68
        && header[3] == 77 && header[4] == 80;
    proof {
        if header@.len() >= 5 {
            if custom {
                assert(header@.take(5) =~= seq![80u8, 71u8, 68u8, 77u8, 80u8]);
            } else {
                assert(!is_custom_archive(header@)) by {
                    if is_custom_archive(header@) {
                        assert(header@.take(5)[0] == header@[0]);
                        assert(header@.take(5)[1] == header@[1]);
                        assert(header@.take(5)[2] == header@[2]);
                        assert(header@.take(5)[3] == header@[3]);
                        assert(header@.take(5)[4] == header@[4]);
                    }
                }
            }
        }
    }
    let mut v: Vec<String> = Vec::new();
    push_lit(&mut v, "exec");
    push_lit(&mut v, "--interactive");
    push_string(&mut v, db.container_name());
    if custom {
        push_lit(&mut v, "pg_restore");
        push_lit(&mut v, "--single-transaction");
        push_lit(&mut v, "--exit-on-error");
        push_lit(&mut v, "--no-owner");
        push_lit(&mut v, "--no-privileges");
    } else {
        push_lit(&mut v, "psql");
        push_lit(&mut v, "-X");
        push_lit(&mut v, "--single-transaction");
        push_lit(&mut v, "--set");
        push_lit(&mut v, "ON_ERROR_STOP=1");
    }
    push_lit(&mut v, "-U");
    push_string(&mut v, db.config.user.clone());
    push_lit(&mut v, "--dbname");
    push_string(&mut v, db.config.database.clone());
    assert(v.deep_view() =~= restore_args_of(db@, is_custom_archive(header@)));
    Ok(v)
}

// ---------------------------------------------------------------------------
// Reading `docker image ls`
// ---------------------------------------------------------------------------

/// The tag a line of `docker image ls` names, if it is a tagged `postgres`
/// image.
pub open spec fn tag_of_line(line: Seq<char>) -> Option<Seq<char>> {
    if has_prefix(line, "postgres:"@) && line.skip("postgres:"@.len() as int) != "<none>"@ {
        Some(line.skip("postgres:"@.len() as int))
    } else {
        None
    }
}

/// Every cached official PostgreSQL tag named in the output.
pub open spec fn listed_tags(output: Seq<char>) -> Set<Seq<char>> {
    Set::new(
        |t: Seq<char>|
            exists|i: int| 0 <= i < lines(output).len() && tag_of_line(#[trigger] lines(output)[i]) == Some(t),
    )
}

/// The cached `postgres` tags in `docker image ls` output, sorted and without
/// duplicates; untagged images are left out.
pub fn postgres_tags(output: &str) -> (tags: Vec<String>)
    ensures
        strictly_sorted(tags.deep_view()),
        tags.deep_view().to_set() == listed_tags(output@),
{
    let text = chars_of(output);
    let all = lines_of(&text);
    let prefix = chars_of("postgres:");
    let none = chars_of("<none>");
    let ghost ls = lines(output@);
    let mut sorted: Vec<Vec<char>> = Vec::new();
    let mut i: usize = 0;
    while i < all.len()
        invariant
            i <= all.len(),
            all.deep_view() == ls,
            ls == lines(output@),
            prefix@ == "postgres:"@,
            none@ == "<none>"@,
            strictly_sorted(sorted.deep_view()),
            sorted.deep_view().to_set() == Set::new(
                |t: Seq<char>| exists|k: int| 0 <= k < i && tag_of_line(#[trigger] ls[k]) == Some(t),
            ),
        decreases all.len() - i,
    {
        let ghost before = sorted.deep_view().to_set();
        let line = &all[i];
        assert(line.deep_view() =~= line@);
        assert(line@ == ls[i as int]);
        let mut added = false;
        if starts_with(line, &prefix) {
            let mut rest: Vec<char> = Vec::new();
            let mut j = prefix.len();
            while j < line.len()
                invariant
                    prefix.len() <= j <= line.len(),
                    rest@ == line@.subrange(prefix.len() as int, j as int),
                decreases line.len() - j,
            {
                rest.push(line[j]);
                assert(line@.subrange(prefix.len() as int, j + 1) == line@.subrange(
                    prefix.len() as int,
                    j as int,
                ).push(line@[j as int]));
                j = j + 1;
            }
            assert(rest@ == line@.skip(prefix.len() as int));
            if !same_chars(&rest, &none) {
                let ghost r = rest@;
                insert_sorted(&mut sorted, rest);
                added = true;
                assert(tag_of_line(ls[i as int]) == Some(r));
                assert(sorted.deep_view().to_set() =~= Set::new(
                    |t: Seq<char>| exists|k: int| 0 <= k < i + 1 && tag_of_line(#[trigger] ls[k]) == Some(t),
                )) by {
                    assert forall|t: Seq<char>| #[trigger] sorted.deep_view().to_set().contains(t) implies
                        exists|k: int| 0 <= k < i + 1 && tag_of_line(#[trigger] ls[k]) == Some(t) by {
                        if t != r {
                            assert(before.contains(t));
                        }
                    }
                }
            }
        }
        if !added {
            assert(tag_of_line(ls[i as int]) is None);
            assert(sorted.deep_view().to_set() =~= Set::new(
                |t: Seq<char>| exists|k: int| 0 <= k < i + 1 && tag_of_line(#[trigger] ls[k]) == Some(t),
            )) by {
                assert forall|t: Seq<char>|
                    exists|k: int| 0 <= k < i + 1 && tag_of_line(#[trigger] ls[k]) == Some(t) implies
                    #[trigger] sorted.deep_view().to_set().contains(t) by {
                    let k = choose|k: int| 0 <= k < i + 1 && tag_of_line(#[trigger] ls[k]) == Some(t);
                    assert(k != i);
                }
            }
        }
        i = i + 1;
    }
    assert(sorted.deep_view().to_set() =~= listed_tags(output@));
    let mut tags: Vec<String> = Vec::new();
    let mut k: usize = 0;
    while k < sorted.len()
        invariant
            k <= sorted.len(),
            tags.deep_view() == sorted.deep_view().take(k as int),
        decreases sorted.len() - k,
    {
        let ghost before = tags.deep_view();
        let t = string_from(&sorted[k]);
        assert(sorted[k as int].deep_view() =~= sorted[k as int]@);
        push_string(&mut tags, t);
        assert(sorted.deep_view().take(k + 1) =~= before.push(sorted.deep_view()[k as int]));
        k = k + 1;
    }
    assert(sorted.deep_view().take(sorted.len() as int) == sorted.deep_view());
    tags
}

// ---------------------------------------------------------------------------
// Reading `docker ps`
// ---------------------------------------------------------------------------

/// The lines of `docker ps` output that are not blank; each must be a JSON row.
pub open spec fn row_lines(output: Seq<char>) -> Seq<Seq<char>> {
    lines(output).filter(|l: Seq<char>| trim(l).len() != 0)
}

pub fn row_lines_of(output: &str) -> (rows: Vec<String>)
    ensures
        rows.deep_view() == row_lines(output@),
{
    let text = chars_of(output);
    let all = lines_of(&text);
    let ghost ls = lines(output@);
    let ghost keep = |l: Seq<char>| trim(l).len() != 0;
    let mut rows: Vec<String> = Vec::new();
    let mut i: usize = 0;
    while i < all.len()
        invariant
            i <= all.len(),
            all.deep_view() == ls,
            ls == lines(output@),
            keep == (|l: Seq<char>| trim(l).len() != 0),
            rows.deep_view() == ls.take(i as int).filter(keep),
        decreases all.len() - i,
    {
        let line = &all[i];
        assert(line.deep_view() =~= line@);
        let (a, b) = trim_bounds(line);
        assert(ls.take(i + 1).drop_last() == ls.take(i as int));
        proof {
            reveal(Seq::filter);
        }
        if a < b {
            let ghost before = rows.deep_view();
            push_string(&mut rows, string_from(line));
            assert(ls.take(i + 1).filter(keep) == ls.take(i as int).filter(keep).push(ls[i as int]));
        } else {
            assert(ls.take(i + 1).filter(keep) == ls.take(i as int).filter(keep));
        }
        i = i + 1;
    }
    assert(ls.take(all.len() as int) == ls);
    rows
}

/// One row of `docker ps --format '{{json .}}'`: the fields Tusklet reads.
#[derive(Clone, Debug, PartialEq, Eq)]
pub struct ContainerRow {
    pub names: String,
    pub state: String,
    pub status: String,
}

/// A running container is unhealthy or still starting when its status says so;
/// a restarting one counts as starting; created, exited and dead containers are
/// stopped; anything else is unknown.
pub open spec fn classify(state: Seq<char>, status: Seq<char>) -> ContainerState {
    if state == "running"@ {
        if occurs(status, "unhealthy"@) {
            ContainerState::Unhealthy
        } else if occurs(status, "health: starting"@) {
            ContainerState::Starting
        } else {
            ContainerState::Running
        }
    } else if state == "restarting"@ {
        ContainerState::Starting
    } else if state == "created"@ || state == "exited"@ || state == "dead"@ {
        ContainerState::Stopped
    } else {
        ContainerState::Unknown
    }
}

pub fn container_state(state: &str, status: &str) -> (s: ContainerState)
    ensures
        s == classify(state@, status@),
{
    let st = chars_of(state);
    let stat = chars_of(status);
    if same_chars(&st, &chars_of("running")) {
        if contains(&stat, &chars_of("unhealthy")) {
            ContainerState::Unhealthy
        } else if contains(&stat, &chars_of("health: starting")) {
            ContainerState::Starting
        } else {
            ContainerState::Running
        }
    } else if same_chars(&st, &chars_of("restarting")) {
        ContainerState::Starting
    } else if same_chars(&st, &chars_of("created")) || same_chars(&st, &chars_of("exited"))
        || same_chars(&st, &chars_of("dead")) {
        ContainerState::Stopped
    } else {
        ContainerState::Unknown
    }
}

/// States by container name, as `docker ps` listed them; a later row for the
/// same name replaces an earlier one.
pub struct ContainerStates {
    entries: Vec<(String, ContainerState)>,
}

pub open spec fn states_map(entries: Seq<(Seq<char>, ContainerState)>) -> Map<
    Seq<char>,
    ContainerState,
>
    decreases entries.len(),
{
    if entries.len() == 0 {
        Map::empty()
    } else {
        states_map(entries.drop_last()).insert(entries.last().0, entries.last().1)
    }
}

impl ContainerStates {
    pub closed spec fn entries_view(&self) -> Seq<(Seq<char>, ContainerState)> {
        self.entries@.map_values(|e: (String, ContainerState)| (e.0@, e.1))
    }

    pub open spec fn map(&self) -> Map<Seq<char>, ContainerState> {
        states_map(self.entries_view())
    }

    pub fn new() -> (s: Self)
        ensures
            s.map() == Map::<Seq<char>, ContainerState>::empty(),
    {
        let s = ContainerStates { entries: Vec::new() };
        assert(s.entries_view() =~= Seq::<(Seq<char>, ContainerState)>::empty());
        s
    }

    /// Records the state of a named container.
    pub fn insert(&mut self, name: String, state: ContainerState)
        ensures
            final(self).map() == old(self).map().insert(name@, state),
    {
        let ghost before = self.entries_view();
        let ghost n = name@;
        self.entries.push((name, state));
        assert(self.entries_view() =~= before.push((n, state)));
        assert(self.entries_view().drop_last() == before);
    }

    /// The state of the named container, if it is listed.
    pub fn get(&self, name: &str) -> (r: Option<ContainerState>)
        ensures
            r == (if self.map().contains_key(name@) {
                Some(self.map()[name@])
            } else {
                None
            }),
    {
        let wanted = chars_of(name);
        let ghost es = self.entries_view();
        let mut i = self.entries.len();
        assert(es.take(i as int) =~= es);
        while i > 0
            invariant
                i <= self.entries.len(),
                es == self.entries_view(),
                wanted@ == name@,
                forall|k: int| i <= k < es.len() ==> (#[trigger] es[k]).0 != name@,
                states_map(es).contains_key(name@) == states_map(es.take(i as int)).contains_key(name@),
                states_map(es.take(i as int)).contains_key(name@) ==> states_map(es)[name@] == states_map(es.take(i as int))[name@],
            decreases i,
        {
            let entry_name = chars_of(self.entries[i - 1].0.as_str());
            assert(es[i - 1] == (self.entries@[i - 1].0@, self.entries@[i - 1].1));
            assert(es.take(i as int).drop_last() == es.take(i - 1));
            if same_chars(&entry_name, &wanted) {
                return Some(self.entries[i - 1].1);
            }
            i = i - 1;
        }
        assert(es.take(0) =~= Seq::<(Seq<char>, ContainerState)>::empty());
        None
    }
}

/// The states of the listed containers, row by row.
pub open spec fn rows_map(rows: Seq<(Seq<char>, Seq<char>, Seq<char>)>) -> Map<Seq<char>, ContainerState>
    decreases rows.len(),
{
    if rows.len() == 0 {
        Map::empty()
    } else {
        rows_map(rows.drop_last()).insert(rows.last().0, classify(rows.last().1, rows.last().2))
    }
}

pub open spec fn row_view(r: ContainerRow) -> (Seq<char>, Seq<char>, Seq<char>) {
    (r.names@, r.state@, r.status@)
}

/// The container states that `docker ps` rows describe.
pub fn parse_states(rows: Vec<ContainerRow>) -> (states: ContainerStates)
    ensures
        states.map() == rows_map(rows@.map_values(|r: ContainerRow| row_view(r))),
{
    let ghost rv = rows@.map_values(|r: ContainerRow| row_view(r));
    let mut states = ContainerStates::new();
    let mut i: usize = 0;
    while i < rows.len()
        invariant
            i <= rows.len(),
            rv == rows@.map_values(|r: ContainerRow| row_view(r)),
            states.map() == rows_map(rv.take(i as int)),
        decreases rows.len() - i,
    {
        let row = &rows[i];
        let state = container_state(row.state.as_str(), row.status.as_str());
        states.insert(row.names.clone(), state);
        assert(rv.take(i + 1).drop_last() == rv.take(i as int));
        assert(rv.take(i + 1).last() == row_view(rows@[i as int]));
        i = i + 1;
    }
    assert(rv.take(rows.len() as int) == rv);
    states
}

// ---------------------------------------------------------------------------
// Start, stop and remove
// ---------------------------------------------------------------------------

/// What an operation does to a database's container.
#[derive(Clone, Copy, Debug, PartialEq, Eq, Structural)]
pub enum Lifecycle {
    /// Create the container if needed (pulling the image only when allowed),
    /// then start it.
    Start { allow_pull: bool },
    /// Stop the owned container; its data stays.
    Stop,
    /// Remove the stopped, owned container; its named data volume stays.
    Remove,
}

/// Where an operation stands: which answer it waits for.
#[derive(Clone, Copy, Debug, PartialEq, Eq, Structural)]
pub enum Stage {
    States,
    Images,
    Pull,
    Create,
    Owner,
    Final,
    Done,
}

/// Which Docker command a call runs.
#[derive(Clone, Copy, Debug, PartialEq, Eq, Structural)]
pub enum Purpose {
    Pull,
    Create,
    Inspect,
    Start,
    Stop,
    Remove,
}

/// One run of the Docker CLI.
pub struct DockerCall {
    pub purpose: Purpose,
    pub args: Vec<String>,
    /// Image downloads get the long (transfer) timeout.
    pub transfer: bool,
    /// The database password is passed in the `POSTGRES_PASSWORD` variable.
    pub with_password: bool,
}

/// What the operation needs next.
pub enum Request {
    /// The states of Tusklet's containers (`Docker::states`).
    ListStates,
    /// The cached postgres tags (`Docker::local_images`).
    ListImages,
    /// Run a command and report its outcome.
    Run(DockerCall),
    /// The operation is over.
    Finished(Result<(), DockerError>),
}

/// What Docker answered to the last request.
pub enum Reply {
    States(Result<ContainerStates, DockerError>),
    Images(Result<Vec<String>, DockerError>),
    Output(Result<String, DockerError>),
}

/// A reply as a mathematical value.
pub enum Heard {
    States(Result<Map<Seq<char>, ContainerState>, DockerFailure>),
    Images(Result<Seq<Seq<char>>, DockerFailure>),
    Output(Result<Seq<char>, DockerFailure>),
}

pub open spec fn heard(r: Reply) -> Heard {
    match r {
        Reply::States(Ok(s)) => Heard::States(Ok(s.map())),
        Reply::States(Err(e)) => Heard::States(Err(e@)),
        Reply::Images(Ok(t)) => Heard::Images(Ok(t.deep_view())),
        Reply::Images(Err(e)) => Heard::Images(Err(e@)),
        Reply::Output(Ok(o)) => Heard::Output(Ok(o@)),
        Reply::Output(Err(e)) => Heard::Output(Err(e@)),
    }
}

/// A request as a mathematical value; a run is described by its purpose.
pub enum Want {
    ListStates,
    ListImages,
    Run(Purpose),
    Finish(Option<DockerFailure>),
}

pub open spec fn want_of(r: Request) -> Want {
    match r {
        Request::ListStates => Want::ListStates,
        Request::ListImages => Want::ListImages,
        Request::Run(c) => Want::Run(c.purpose),
        Request::Finished(Ok(())) => Want::Finish(None),
        Request::Finished(Err(e)) => Want::Finish(Some(e@)),
    }
}

/// The arguments of each kind of run for a database.
pub open spec fn call_args_of(p: Purpose, db: AbstractDatabase) -> Seq<Seq<char>> {
    match p {
        Purpose::Pull => pull_args_of(db),
        Purpose::Create => match create_args_outcome(db) {
            Ok(args) => args,
            Err(_) => Seq::empty(),
        },
        Purpose::Inspect => owner_args_of(db),
        Purpose::Start => start_args_of(db),
        Purpose::Stop => stop_args_of(db),
        Purpose::Remove => remove_args_of(db),
    }
}

/// A run carries the arguments of its purpose; only a pull gets the transfer
/// timeout and only a create sees the password.
pub open spec fn fits(r: Request, db: AbstractDatabase) -> bool {
    match r {
        Request::Run(c) => {
            &&& c.args.deep_view() == call_args_of(c.purpose, db)
            &&& c.transfer == (c.purpose == Purpose::Pull)
            &&& c.with_password == (c.purpose == Purpose::Create)
        },
        _ => true,
    }
}

pub open spec fn failed(f: DockerFailure) -> (Stage, Want) {
    (Stage::Done, Want::Finish(Some(f)))
}

/// The value of a step that `Operation::advance` never takes (a reply of the
/// wrong kind).
pub open spec fn unheard() -> (Stage, Want) {
    failed(DockerFailure::Other(Seq::empty()))
}

/// The kind of reply each stage waits for.
pub open spec fn replies_to(stage: Stage, h: Heard) -> bool {
    match stage {
        Stage::States => h is States,
        Stage::Images => h is Images,
        Stage::Done => false,
        _ => h is Output,
    }
}

pub open spec fn succeeded() -> (Stage, Want) {
    (Stage::Done, Want::Finish(None))
}

/// The command that finishes each operation once ownership is confirmed.
pub open spec fn final_purpose(kind: Lifecycle) -> Purpose {
    match kind {
        Lifecycle::Start { .. } => Purpose::Start,
        Lifecycle::Stop => Purpose::Stop,
        Lifecycle::Remove => Purpose::Remove,
    }
}

pub open spec fn begin_of(kind: Lifecycle) -> (Stage, Want) {
    match kind {
        Lifecycle::Stop => (Stage::Owner, Want::Run(Purpose::Inspect)),
        _ => (Stage::States, Want::ListStates),
    }
}

/// Creating needs a valid configuration.
pub open spec fn create_step(db: AbstractDatabase) -> (Stage, Want) {
    match create_args_outcome(db) {
        Err(r) => failed(DockerFailure::Config(r)),
        Ok(_) => (Stage::Create, Want::Run(Purpose::Create)),
    }
}

/// How an operation proceeds from `stage` on hearing `h`.
pub open spec fn step_of(kind: Lifecycle, stage: Stage, db: AbstractDatabase, h: Heard) -> (
    Stage,
    Want,
) {
    let name = container_name_of(db);
    match stage {
        Stage::States => match h {
            Heard::States(Err(f)) => failed(f),
            Heard::States(Ok(m)) => match kind {
                Lifecycle::Start { .. } => if !m.contains_key(name) {
                    (Stage::Images, Want::ListImages)
                } else if active(m[name]) {
                    succeeded()
                } else {
                    (Stage::Owner, Want::Run(Purpose::Inspect))
                },
                _ => if !m.contains_key(name) {
                    succeeded()
                } else if active(m[name]) {
                    failed(DockerFailure::StopFirst)
                } else {
                    (Stage::Owner, Want::Run(Purpose::Inspect))
                },
            },
            _ => unheard(),
        },
        Stage::Images => match h {
            Heard::Images(Err(f)) => failed(f),
            Heard::Images(Ok(tags)) => if tags.contains(db.config.tag) {
                create_step(db)
            } else if kind matches Lifecycle::Start { allow_pull } && allow_pull {
                (Stage::Pull, Want::Run(Purpose::Pull))
            } else {
                failed(DockerFailure::ImageUnavailable(image_of(db)))
            },
            _ => unheard(),
        },
        Stage::Pull => match h {
            Heard::Output(Err(f)) => failed(f),
            Heard::Output(Ok(_)) => create_step(db),
            _ => unheard(),
        },
        Stage::Create => match h {
            Heard::Output(Err(f)) => failed(
                DockerFailure::Other(redacted(headline_text(f), db.password)),
            ),
            Heard::Output(Ok(_)) => (Stage::Owner, Want::Run(Purpose::Inspect)),
            _ => unheard(),
        },
        Stage::Owner => match h {
            Heard::Output(Err(f)) => failed(f),
            Heard::Output(Ok(out)) => if owned_by(out, db) {
                (Stage::Final, Want::Run(final_purpose(kind)))
            } else {
                failed(DockerFailure::NotOwned)
            },
            _ => unheard(),
        },
        Stage::Final => match h {
            Heard::Output(Err(f)) => failed(f),
            Heard::Output(Ok(_)) => succeeded(),
            _ => unheard(),
        },
        Stage::Done => unheard(),
    }
}

/// A start, stop or removal of one database's container, one Docker request
/// at a time.
pub struct Operation {
    pub db: Database,
    pub kind: Lifecycle,
    pub stage: Stage,
}

fn run(purpose: Purpose, args: Vec<String>) -> (r: Request)
    ensures
        r matches Request::Run(c) && c.purpose == purpose && c.args == args
            && c.transfer == (purpose == Purpose::Pull) && c.with_password == (purpose
            == Purpose::Create),
{
    Request::Run(
        DockerCall {
            purpose,
            args,
            transfer: purpose == Purpose::Pull,
            with_password: purpose == Purpose::Create,
        },
    )
}

fn finish(e: DockerError) -> (r: Request)
    ensures
        want_of(r) == Want::Finish(Some(e@)),
{
    Request::Finished(Err(e))
}

fn finish_ok() -> (r: Request)
    ensures
        want_of(r) == Want::Finish(None),
{
    Request::Finished(Ok(()))
}

fn tags_contain(tags: &Vec<String>, tag: &String) -> (b: bool)
    ensures
        b == tags.deep_view().contains(tag@),
{
    let mut i: usize = 0;
    while i < tags.len()
        invariant
            i <= tags.len(),
            forall|k: int| 0 <= k < i ==> tags.deep_view()[k] != tag@,
        decreases tags.len() - i,
    {
        if tags[i] == *tag {
            assert(tags.deep_view()[i as int] == tag@);
            return true;
        }
        i = i + 1;
    }
    false
}

impl Operation {
    /// Begins an operation on a database.
    pub fn begin(db: Database, kind: Lifecycle) -> (r: (Operation, Request))
        ensures
            r.0.db == db,
            r.0.kind == kind,
            (r.0.stage, want_of(r.1)) == begin_of(kind),
            fits(r.1, db@),
    {
        match kind {
            Lifecycle::Stop => {
                let args = owner_args(&db);
                (Operation { db, kind, stage: Stage::Owner }, run(Purpose::Inspect, args))
            },
            _ => (Operation { db, kind, stage: Stage::States }, Request::ListStates),
        }
    }

    fn create_request(db: Database, kind: Lifecycle) -> (r: (Operation, Request))
        ensures
            r.0.db == db,
            r.0.kind == kind,
            (r.0.stage, want_of(r.1)) == create_step(db@),
            fits(r.1, db@),
    {
        match create_args(&db) {
            Err(e) => (Operation { db, kind, stage: Stage::Done }, finish(DockerError::Config(e))),
            Ok(args) => (Operation { db, kind, stage: Stage::Create }, run(Purpose::Create, args)),
        }
    }

    /// Whether `reply` is the kind of reply the operation waits for.
    pub fn expects(&self, reply: &Reply) -> (b: bool)
        ensures
            b == replies_to(self.stage, heard(*reply)),
    {
        match self.stage {
            Stage::States => matches!(reply, Reply::States(_)),
            Stage::Images => matches!(reply, Reply::Images(_)),
            Stage::Done => false,
            _ => matches!(reply, Reply::Output(_)),
        }
    }

    /// Hands Docker's answer to the operation and returns what it needs next.
    pub fn advance(self, reply: Reply) -> (r: (Operation, Request))
        requires
            replies_to(self.stage, heard(reply)),
        ensures
            r.0.db == self.db,
            r.0.kind == self.kind,
            (r.0.stage, want_of(r.1)) == step_of(self.kind, self.stage, self.db@, heard(reply)),
            fits(r.1, self.db@),
    {
        let Operation { db, kind, stage } = self;
        match stage {
            Stage::States => match reply {
                Reply::States(Err(e)) => (Operation { db, kind, stage: Stage::Done }, finish(e)),
                Reply::States(Ok(states)) => {
                    let name = db.container_name();
                    let state = states.get(name.as_str());
                    match kind {
                        Lifecycle::Start { .. } => match state {
                            None => (
                                Operation { db, kind, stage: Stage::Images },
                                Request::ListImages,
                            ),
                            Some(s) => if s.is_active() {
                                (Operation { db, kind, stage: Stage::Done }, finish_ok())
                            } else {
                                let args = owner_args(&db);
                                (
                                    Operation { db, kind, stage: Stage::Owner },
                                    run(Purpose::Inspect, args),
                                )
                            },
                        },
                        _ => match state {
                            None => (Operation { db, kind, stage: Stage::Done }, finish_ok()),
                            Some(s) => if s.is_active() {
                                (
                                    Operation { db, kind, stage: Stage::Done },
                                    finish(DockerError::StopFirst),
                                )
                            } else {
                                let args = owner_args(&db);
                                (
                                    Operation { db, kind, stage: Stage::Owner },
                                    run(Purpose::Inspect, args),
                                )
                            },
                        },
                    }
                },
                _ => (Operation { db, kind, stage: Stage::Done }, finish(DockerError::Other(String::new()))),
            },
            Stage::Images => match reply {
                Reply::Images(Err(e)) => (Operation { db, kind, stage: Stage::Done }, finish(e)),
                Reply::Images(Ok(tags)) => {
                    if tags_contain(&tags, &db.config.tag) {
                        Self::create_request(db, kind)
                    } else {
                        let allowed = match kind {
                            Lifecycle::Start { allow_pull } => allow_pull,
                            _ => false,
                        };
                        if allowed {
                            let args = pull_args(&db);
                            (Operation { db, kind, stage: Stage::Pull }, run(Purpose::Pull, args))
                        } else {
                            let image = db.image();
                            (
                                Operation { db, kind, stage: Stage::Done },
                                finish(DockerError::ImageUnavailable(image)),
                            )
                        }
                    }
                },
                _ => (Operation { db, kind, stage: Stage::Done }, finish(DockerError::Other(String::new()))),
            },
            Stage::Pull => match reply {
                Reply::Output(Err(e)) => (Operation { db, kind, stage: Stage::Done }, finish(e)),
                Reply::Output(Ok(_)) => Self::create_request(db, kind),
                _ => (Operation { db, kind, stage: Stage::Done }, finish(DockerError::Other(String::new()))),
            },
            Stage::Create => match reply {
                Reply::Output(Err(e)) => {
                    let text = e.headline();
                    let hidden = redact(text.as_str(), db.password.as_str());
                    (Operation { db, kind, stage: Stage::Done }, finish(DockerError::Other(hidden)))
                },
                Reply::Output(Ok(_)) => {
                    let args = owner_args(&db);
                    (Operation { db, kind, stage: Stage::Owner }, run(Purpose::Inspect, args))
                },
                _ => (Operation { db, kind, stage: Stage::Done }, finish(DockerError::Other(String::new()))),
            },
            Stage::Owner => match reply {
                Reply::Output(Err(e)) => (Operation { db, kind, stage: Stage::Done }, finish(e)),
                Reply::Output(Ok(out)) => {
                    if owner_matches(out.as_str(), &db) {
                        let (purpose, args) = match kind {
                            Lifecycle::Start { .. } => (Purpose::Start, start_args(&db)),
                            Lifecycle::Stop => (Purpose::Stop, stop_args(&db)),
                            Lifecycle::Remove => (Purpose::Remove, remove_args(&db)),
                        };
                        (Operation { db, kind, stage: Stage::Final }, run(purpose, args))
                    } else {
                        (
                            Operation { db, kind, stage: Stage::Done },
                            finish(DockerError::NotOwned),
                        )
                    }
                },
                _ => (Operation { db, kind, stage: Stage::Done }, finish(DockerError::Other(String::new()))),
            },
            Stage::Final => match reply {
                Reply::Output(Err(e)) => (Operation { db, kind, stage: Stage::Done }, finish(e)),
                Reply::Output(Ok(_)) => (Operation { db, kind, stage: Stage::Done }, finish_ok()),
                _ => (Operation { db, kind, stage: Stage::Done }, finish(DockerError::Other(String::new()))),
            },
            Stage::Done => (Operation { db, kind, stage: Stage::Done }, finish(DockerError::Other(String::new()))),
        }
    }
}

// ---------------------------------------------------------------------------
// Backups
// ---------------------------------------------------------------------------

/// A backup export (`pg_dump`) or a restore.
#[derive(Clone, Copy, Debug, PartialEq, Eq, Structural)]
pub enum Transfer {
    Dump,
    Restore,
}

/// Where a backup stands: which answer it waits for.
#[derive(Clone, Copy, Debug, PartialEq, Eq, Structural)]
pub enum BackupStage {
    Owner,
    Destination,
    Header,
    Writing,
    Publishing,
    Restoring,
    Done,
}

/// What a backup needs next.
pub enum BackupRequest {
    /// Run `docker inspect` with these arguments and report its output.
    Inspect(Vec<String>),
    /// Tell whether the destination file already exists.
    CheckDestination,
    /// Read the first bytes of the source file (at most five are looked at).
    ReadHeader,
    /// Run `pg_dump` with these arguments, its output going into a new
    /// temporary file beside the destination.
    Write(Vec<String>),
    /// Move the temporary file to the destination, never replacing a file.
    Publish,
    /// Run the restore command with these arguments, the source file as its
    /// standard input.
    Feed(Vec<String>),
    /// The backup is over.
    Finished(Result<(), DockerError>),
}

/// The answer to the last backup request.
pub enum BackupReply {
    Output(Result<String, DockerError>),
    Exists(bool),
    Header(Result<Vec<u8>, DockerError>),
}

pub enum BackupHeard {
    Output(Result<Seq<char>, DockerFailure>),
    Exists(bool),
    Header(Result<Seq<u8>, DockerFailure>),
}

pub open spec fn backup_heard(r: BackupReply) -> BackupHeard {
    match r {
        BackupReply::Output(Ok(o)) => BackupHeard::Output(Ok(o@)),
        BackupReply::Output(Err(e)) => BackupHeard::Output(Err(e@)),
        BackupReply::Exists(b) => BackupHeard::Exists(b),
        BackupReply::Header(Ok(h)) => BackupHeard::Header(Ok(h@)),
        BackupReply::Header(Err(e)) => BackupHeard::Header(Err(e@)),
    }
}

pub enum BackupWant {
    Inspect(Seq<Seq<char>>),
    CheckDestination,
    ReadHeader,
    Write(Seq<Seq<char>>),
    Publish,
    Feed(Seq<Seq<char>>),
    Finish(Option<DockerFailure>),
}

pub open spec fn backup_want(r: BackupRequest) -> BackupWant {
    match r {
        BackupRequest::Inspect(a) => BackupWant::Inspect(a.deep_view()),
        BackupRequest::CheckDestination => BackupWant::CheckDestination,
        BackupRequest::ReadHeader => BackupWant::ReadHeader,
        BackupRequest::Write(a) => BackupWant::Write(a.deep_view()),
        BackupRequest::Publish => BackupWant::Publish,
        BackupRequest::Feed(a) => BackupWant::Feed(a.deep_view()),
        BackupRequest::Finished(Ok(())) => BackupWant::Finish(None),
        BackupRequest::Finished(Err(e)) => BackupWant::Finish(Some(e@)),
    }
}

pub open spec fn backup_failed(f: DockerFailure) -> (BackupStage, BackupWant) {
    (BackupStage::Done, BackupWant::Finish(Some(f)))
}

/// The value of a step that `Backup::advance` never takes (a reply of the
/// wrong kind).
pub open spec fn backup_unheard() -> (BackupStage, BackupWant) {
    backup_failed(DockerFailure::Other(Seq::empty()))
}

/// Every backup begins by reading the container's owner label.
pub open spec fn backup_begin(db: AbstractDatabase) -> (BackupStage, BackupWant) {
    (BackupStage::Owner, BackupWant::Inspect(owner_args_of(db)))
}

/// The kind of reply each stage waits for.
pub open spec fn backup_replies_to(stage: BackupStage, h: BackupHeard) -> bool {
    match stage {
        BackupStage::Destination => h is Exists,
        BackupStage::Header => h is Header,
        BackupStage::Done => false,
        _ => h is Output,
    }
}

/// How a backup proceeds from `stage` on hearing `h`.
pub open spec fn backup_step(kind: Transfer, stage: BackupStage, db: AbstractDatabase, h: BackupHeard) -> (
    BackupStage,
    BackupWant,
) {
    match stage {
        BackupStage::Owner => match h {
            BackupHeard::Output(Err(f)) => backup_failed(f),
            BackupHeard::Output(Ok(out)) => if !owned_by(out, db) {
                backup_failed(DockerFailure::NotOwned)
            } else {
                match kind {
                    Transfer::Dump => (BackupStage::Destination, BackupWant::CheckDestination),
                    Transfer::Restore => (BackupStage::Header, BackupWant::ReadHeader),
                }
            },
            _ => backup_unheard(),
        },
        BackupStage::Destination => match h {
            BackupHeard::Exists(true) => backup_failed(DockerFailure::DestinationExists),
            BackupHeard::Exists(false) => (BackupStage::Writing, BackupWant::Write(dump_args_of(db))),
            _ => backup_unheard(),
        },
        BackupStage::Header => match h {
            BackupHeard::Header(Err(f)) => backup_failed(f),
            BackupHeard::Header(Ok(bytes)) => if bytes.len() == 0 {
                backup_failed(DockerFailure::EmptyBackup)
            } else {
                (
                    BackupStage::Restoring,
                    BackupWant::Feed(restore_args_of(db, is_custom_archive(bytes))),
                )
            },
            _ => backup_unheard(),
        },
        BackupStage::Writing => match h {
            BackupHeard::Output(Err(f)) => backup_failed(f),
            BackupHeard::Output(Ok(_)) => (BackupStage::Publishing, BackupWant::Publish),
            _ => backup_unheard(),
        },
        BackupStage::Publishing | BackupStage::Restoring => match h {
            BackupHeard::Output(Err(f)) => backup_failed(f),
            BackupHeard::Output(Ok(_)) => (BackupStage::Done, BackupWant::Finish(None)),
            _ => backup_unheard(),
        },
        BackupStage::Done => backup_unheard(),
    }
}

/// An export or a restore of one database's backup, one request at a time.
pub struct Backup {
    pub db: Database,
    pub kind: Transfer,
    pub stage: BackupStage,
}

fn backup_finish(e: DockerError) -> (r: BackupRequest)
    ensures
        backup_want(r) == BackupWant::Finish(Some(e@)),
{
    BackupRequest::Finished(Err(e))
}

impl Backup {
    /// Begins a backup of a database.
    pub fn begin(db: Database, kind: Transfer) -> (r: (Backup, BackupRequest))
        ensures
            r.0.db == db,
            r.0.kind == kind,
            (r.0.stage, backup_want(r.1)) == backup_begin(db@),
    {
        let args = owner_args(&db);
        (Backup { db, kind, stage: BackupStage::Owner }, BackupRequest::Inspect(args))
    }

    /// Whether `reply` is the kind of reply the backup waits for.
    pub fn expects(&self, reply: &BackupReply) -> (b: bool)
        ensures
            b == backup_replies_to(self.stage, backup_heard(*reply)),
    {
        match self.stage {
            BackupStage::Destination => matches!(reply, BackupReply::Exists(_)),
            BackupStage::Header => matches!(reply, BackupReply::Header(_)),
            BackupStage::Done => false,
            _ => matches!(reply, BackupReply::Output(_)),
        }
    }

    /// Hands the answer to the backup and returns what it needs next.
    pub fn advance(self, reply: BackupReply) -> (r: (Backup, BackupRequest))
        requires
            backup_replies_to(self.stage, backup_heard(reply)),
        ensures
            r.0.db == self.db,
            r.0.kind == self.kind,
            (r.0.stage, backup_want(r.1)) == backup_step(
                self.kind,
                self.stage,
                self.db@,
                backup_heard(reply),
            ),
    {
        let Backup { db, kind, stage } = self;
        match stage {
            BackupStage::Owner => match reply {
                BackupReply::Output(Err(e)) => (Backup { db, kind, stage: BackupStage::Done }, backup_finish(e)),
                BackupReply::Output(Ok(out)) => {
                    if !owner_matches(out.as_str(), &db) {
                        (
                            Backup { db, kind, stage: BackupStage::Done },
                            backup_finish(DockerError::NotOwned),
                        )
                    } else {
                        match kind {
                            Transfer::Dump => (
                                Backup { db, kind, stage: BackupStage::Destination },
                                BackupRequest::CheckDestination,
                            ),
                            Transfer::Restore => (
                                Backup { db, kind, stage: BackupStage::Header },
                                BackupRequest::ReadHeader,
                            ),
                        }
                    }
                },
                _ => (
                    Backup { db, kind, stage: BackupStage::Done },
                    backup_finish(DockerError::Other(String::new())),
                ),
            },
            BackupStage::Destination => match reply {
                BackupReply::Exists(true) => (
                    Backup { db, kind, stage: BackupStage::Done },
                    backup_finish(DockerError::DestinationExists),
                ),
                BackupReply::Exists(false) => {
                    let args = dump_args(&db);
                    (Backup { db, kind, stage: BackupStage::Writing }, BackupRequest::Write(args))
                },
                _ => (
                    Backup { db, kind, stage: BackupStage::Done },
                    backup_finish(DockerError::Other(String::new())),
                ),
            },
            BackupStage::Header => match reply {
                BackupReply::Header(Err(e)) => (Backup { db, kind, stage: BackupStage::Done }, backup_finish(e)),
                BackupReply::Header(Ok(bytes)) => match restore_args(&db, bytes.as_slice()) {
                    Err(e) => (Backup { db, kind, stage: BackupStage::Done }, backup_finish(e)),
                    Ok(args) => (
                        Backup { db, kind, stage: BackupStage::Restoring },
                        BackupRequest::Feed(args),
                    ),
                },
                _ => (
                    Backup { db, kind, stage: BackupStage::Done },
                    backup_finish(DockerError::Other(String::new())),
                ),
            },
            BackupStage::Writing => match reply {
                BackupReply::Output(Err(e)) => (Backup { db, kind, stage: BackupStage::Done }, backup_finish(e)),
                BackupReply::Output(Ok(_)) => (
                    Backup { db, kind, stage: BackupStage::Publishing },
                    BackupRequest::Publish,
                ),
                _ => (
                    Backup { db, kind, stage: BackupStage::Done },
                    backup_finish(DockerError::Other(String::new())),
                ),
            },
            BackupStage::Publishing | BackupStage::Restoring => match reply {
                BackupReply::Output(Err(e)) => (Backup { db, kind, stage: BackupStage::Done }, backup_finish(e)),
                BackupReply::Output(Ok(_)) => (
                    Backup { db, kind, stage: BackupStage::Done },
                    BackupRequest::Finished(Ok(())),
                ),
                _ => (
                    Backup { db, kind, stage: BackupStage::Done },
                    backup_finish(DockerError::Other(String::new())),
                ),
            },
            BackupStage::Done => (
                Backup { db, kind, stage: BackupStage::Done },
                backup_finish(DockerError::Other(String::new())),
            ),
        }
    }
}

// ---------------------------------------------------------------------------
// Laws
// ---------------------------------------------------------------------------

/// Offline mode never downloads: a start that may not pull never runs
/// `docker pull`, whatever Docker answers.
pub proof fn offline_start_never_pulls(stage: Stage, db: AbstractDatabase, h: Heard)
    ensures
        begin_of(Lifecycle::Start { allow_pull: false }).1 != Want::Run(Purpose::Pull),
        step_of(Lifecycle::Start { allow_pull: false }, stage, db, h).1 != Want::Run(
            Purpose::Pull,
        ),
{
}

/// A container is started, stopped or removed only right after its owner
/// label was read and named this database.
pub proof fn changes_only_owned_containers(kind: Lifecycle, stage: Stage, db: AbstractDatabase, h: Heard)
    ensures
        begin_of(kind).1 != Want::Run(Purpose::Start),
        begin_of(kind).1 != Want::Run(Purpose::Stop),
        begin_of(kind).1 != Want::Run(Purpose::Remove),
        ({
            let w = step_of(kind, stage, db, h).1;
            w == Want::Run(Purpose::Start) || w == Want::Run(Purpose::Stop) || w == Want::Run(
                Purpose::Remove,
            )
        }) ==> (stage == Stage::Owner && (h matches Heard::Output(Ok(out)) && owned_by(out, db))),
{
}

/// The stages each operation can be in: only a start lists images, pulls or
/// creates; a stop begins with the ownership check.
pub open spec fn possible_stage(kind: Lifecycle, stage: Stage) -> bool {
    match kind {
        Lifecycle::Start { .. } => true,
        Lifecycle::Stop => stage is Owner || stage is Final || stage is Done,
        Lifecycle::Remove => stage is States || stage is Owner || stage is Final || stage is Done,
    }
}

/// Operations begin in, and only move between, their possible stages.
pub proof fn operations_stay_in_possible_stages(kind: Lifecycle, stage: Stage, db: AbstractDatabase, h: Heard)
    requires
        possible_stage(kind, stage),
    ensures
        possible_stage(kind, begin_of(kind).0),
        possible_stage(kind, step_of(kind, stage, db, h).0),
{
}

/// A removal checks ownership (and so can remove) only a container Docker
/// lists as not running; an active container is refused.
pub proof fn removal_needs_stopped_container(stage: Stage, db: AbstractDatabase, h: Heard)
    requires
        possible_stage(Lifecycle::Remove, stage),
    ensures
        step_of(Lifecycle::Remove, stage, db, h).0 == Stage::Owner ==> (stage == Stage::States && (h matches Heard::States(Ok(m))
            && m.contains_key(container_name_of(db)) && !active(m[container_name_of(db)]))),
        (stage == Stage::States && (h matches Heard::States(Ok(m)) && m.contains_key(
            container_name_of(db),
        ) && active(m[container_name_of(db)]))) ==> step_of(Lifecycle::Remove, stage, db, h)
            == failed(DockerFailure::StopFirst),
{
}

/// A container is created only when Docker does not list it: an existing
/// container, and its data, is reused.
pub proof fn creates_only_missing_containers(kind: Lifecycle, stage: Stage, db: AbstractDatabase, h: Heard)
    ensures
        step_of(kind, stage, db, h).0 == Stage::Images ==> (stage == Stage::States && (h matches Heard::States(Ok(m))
            && !m.contains_key(container_name_of(db)))),
        step_of(kind, stage, db, h).1 == Want::Run(Purpose::Create) ==> (stage == Stage::Images
            || stage == Stage::Pull),
{
}

/// Starting a database whose container is already active does nothing more.
pub proof fn starting_active_is_noop(allow_pull: bool, db: AbstractDatabase, m: Map<Seq<char>, ContainerState>)
    requires
        m.contains_key(container_name_of(db)),
        active(m[container_name_of(db)]),
    ensures
        step_of(Lifecycle::Start { allow_pull }, Stage::States, db, Heard::States(Ok(m)))
            == succeeded(),
{
}

/// Local images are always used first: when the image is cached, a start
/// goes on to create the container and never pulls, online or offline.
pub proof fn cached_images_are_used_first(allow_pull: bool, db: AbstractDatabase, tags: Seq<Seq<char>>)
    requires
        tags.contains(db.config.tag),
    ensures
        step_of(Lifecycle::Start { allow_pull }, Stage::Images, db, Heard::Images(Ok(tags)))
            == create_step(db),
        step_of(Lifecycle::Start { allow_pull }, Stage::Images, db, Heard::Images(Ok(tags))).1
            != Want::Run(Purpose::Pull),
{
}

/// Removing a database's container never names its data volume, which Docker
/// therefore keeps.
pub proof fn removal_keeps_the_data_volume(db: AbstractDatabase)
    ensures
        !remove_args_of(db).contains(volume_name_of(db)),
{
    reveal_strlit("rm");
    reveal_strlit("--volumes");
    reveal_strlit("tusklet-");
    reveal_strlit("-data");
    let args = remove_args_of(db);
    let v = volume_name_of(db);
    assert(v.len() == container_name_of(db).len() + 5);
    assert forall|i: int| 0 <= i < args.len() implies args[i] != v by {
        if i == 0 {
            assert(args[0].len() == 2);
        } else if i == 1 {
            assert(args[1].len() == 9);
        } else {
            assert(args[2] == container_name_of(db));
        }
    }
}

/// The container's arguments never depend on the password: it reaches the
/// container only through the environment.
pub proof fn create_args_ignore_password(db: AbstractDatabase, password: Seq<char>)
    ensures
        create_args_outcome(db) == create_args_outcome(AbstractDatabase { password, ..db }),
{
}

/// A failed create reports the first line of Docker's error with every
/// occurrence of the password replaced, so a password of the kind Tusklet generates never shows.
pub proof fn create_failures_never_show_the_password(kind: Lifecycle, db: AbstractDatabase, f: DockerFailure)
    requires
        db.password.len() > 0,
        lacks(db.password, '['),
        lacks(db.password, ']'),
        !occurs("[redacted]"@, db.password),
    ensures
        step_of(kind, Stage::Create, db, Heard::Output(Err(f))).1 matches Want::Finish(
            Some(DockerFailure::Other(m)),
        ) && !occurs(m, db.password),
{
    redaction_hides_the_secret(headline_text(f), db.password);
}

/// The stages each backup can be in: only an export checks, writes and
/// publishes a file; only a restore reads one and feeds it.
pub open spec fn possible_backup_stage(kind: Transfer, stage: BackupStage) -> bool {
    match kind {
        Transfer::Dump => !(stage is Header || stage is Restoring),
        Transfer::Restore => !(stage is Destination || stage is Writing || stage is Publishing),
    }
}

/// Backups begin in, and only move between, their possible stages.
pub proof fn backups_stay_in_possible_stages(kind: Transfer, stage: BackupStage, db: AbstractDatabase, h: BackupHeard)
    requires
        possible_backup_stage(kind, stage),
    ensures
        possible_backup_stage(kind, backup_begin(db).0),
        possible_backup_stage(kind, backup_step(kind, stage, db, h).0),
{
}

/// An export never replaces a file: `pg_dump` runs only once the owner label
/// named this database and the destination was found absent, and the file is
/// published only after `pg_dump` succeeded.
pub proof fn exports_never_replace_files(stage: BackupStage, db: AbstractDatabase, h: BackupHeard)
    ensures
        backup_step(Transfer::Dump, stage, db, h).0 == BackupStage::Destination ==> (stage
            == BackupStage::Owner && (h matches BackupHeard::Output(Ok(out)) && owned_by(out, db))),
        backup_step(Transfer::Dump, stage, db, h).1 matches BackupWant::Write(args) ==> (stage
            == BackupStage::Destination && h == BackupHeard::Exists(false) && args == dump_args_of(
            db,
        )),
        backup_step(Transfer::Dump, stage, db, h).1 == BackupWant::Publish ==> (stage
            == BackupStage::Writing && h matches BackupHeard::Output(Ok(_))),
        (stage == BackupStage::Destination && h == BackupHeard::Exists(true)) ==> backup_step(
            Transfer::Dump,
            stage,
            db,
            h,
        ) == backup_failed(DockerFailure::DestinationExists),
{
}

/// A restore feeds a backup only to this database's container, only when the
/// backup is not empty, and with the tool its first bytes call for.
pub proof fn restores_need_owner_and_content(stage: BackupStage, db: AbstractDatabase, h: BackupHeard)
    ensures
        backup_step(Transfer::Restore, stage, db, h).0 == BackupStage::Header ==> (stage
            == BackupStage::Owner && (h matches BackupHeard::Output(Ok(out)) && owned_by(out, db))),
        backup_step(Transfer::Restore, stage, db, h).1 matches BackupWant::Feed(args) ==> (stage
            == BackupStage::Header && (h matches BackupHeard::Header(Ok(bytes)) && bytes.len() > 0
            && args == restore_args_of(db, is_custom_archive(bytes)))),
{
}

/// Keeping the last bytes chunk by chunk keeps the last bytes of everything
/// read: capping what was kept, appending a chunk and capping again gives the
/// cap of the whole.
pub proof fn capping_in_steps_keeps_the_latest_tail(a: Seq<u8>, b: Seq<u8>, limit: nat)
    ensures
        last_at_most(last_at_most(a, limit) + b, limit) == last_at_most(a + b, limit),
{
    let kept = last_at_most(a, limit);
    let whole = a + b;
    if a.len() > limit {
        let d = a.len() - limit;
        assert(kept == a.skip(d));
        assert(kept.len() == limit);
        let cut = (kept + b).len() - limit;
        assert(whole.len() > limit);
        let tail = whole.skip(whole.len() - limit);
        assert((kept + b).skip(cut) =~= tail) by {
            assert forall|i: int| 0 <= i < limit implies #[trigger] (kept + b).skip(cut)[i]
                == tail[i] by {
                assert((kept + b)[cut + i] == whole[d + cut + i]);
            }
        }
        if (kept + b).len() == limit {
            assert((kept + b).skip(0) =~= kept + b);
        }
    } else {
        assert(kept == a);
    }
}

/// Starting a database whose container exists but is not active (stopped,
/// never started, unknown) checks the container's owner label and then runs
/// `docker start` on it; a start succeeds from the container listing only
/// when the container is already active.
pub proof fn stopped_containers_are_started(allow_pull: bool, db: AbstractDatabase, m: Map<Seq<char>, ContainerState>, out: Seq<char>, h: Heard)
    ensures
        (m.contains_key("tusklet-"@ + db.id) && !(m["tusklet-"@ + db.id] is Running
            || m["tusklet-"@ + db.id] is Starting || m["tusklet-"@ + db.id] is Unhealthy))
            ==> step_of(Lifecycle::Start { allow_pull }, Stage::States, db, Heard::States(Ok(m)))
            == (Stage::Owner, Want::Run(Purpose::Inspect)),
        trim(out) == db.id ==> step_of(
            Lifecycle::Start { allow_pull },
            Stage::Owner,
            db,
            Heard::Output(Ok(out)),
        ) == (Stage::Final, Want::Run(Purpose::Start)),
        call_args_of(Purpose::Start, db) == seq!["start"@, "tusklet-"@ + db.id],
        step_of(Lifecycle::Start { allow_pull }, Stage::States, db, h) == (Stage::Done, Want::Finish(
            None,
        )) ==> (h matches Heard::States(Ok(m2)) && m2.contains_key("tusklet-"@ + db.id) && (
        m2["tusklet-"@ + db.id] is Running || m2["tusklet-"@ + db.id] is Starting
            || m2["tusklet-"@ + db.id] is Unhealthy)),
{
}

/// A restore runs inside the database's own container, in one transaction,
/// with `pg_restore` exactly for custom-format archives (and `psql`
/// otherwise), and ends with `-U <user> --dbname <initial database>`; an
/// export ends the same way.
pub proof fn backups_name_the_configured_database(db: AbstractDatabase, custom: bool)
    ensures
        ({
            let a = restore_args_of(db, custom);
            &&& a.len() == 12
            &&& a[0] == "exec"@ && a[1] == "--interactive"@ && a[2] == "tusklet-"@ + db.id
            &&& a[3] == (if custom {
                "pg_restore"@
            } else {
                "psql"@
            })
            &&& a.contains("--single-transaction"@)
            &&& a[8] == "-U"@ && a[9] == db.config.user
            &&& a[10] == "--dbname"@ && a[11] == db.config.database
        }),
        ({
            let d = dump_args_of(db);
            &&& d[0] == "exec"@ && d[1] == "tusklet-"@ + db.id && d[2] == "pg_dump"@
            &&& d.contains("--format=custom"@)
            &&& d.len() == 10 && d[6] == "-U"@ && d[7] == db.config.user && d[8] == "--dbname"@
                && d[9] == db.config.database
        }),
{
    let a = restore_args_of(db, custom);
    if custom {
        assert(a[4] == "--single-transaction"@);
    } else {
        assert(a[5] == "--single-transaction"@);
    }
    let d = dump_args_of(db);
    assert(d[3] == "--format=custom"@);
}

/// A restore feeds a non-empty backup with `pg_restore` exactly when its first
/// five bytes are `PGDMP`.
pub proof fn restores_pick_the_tool_by_header(header: Seq<u8>)
    ensures
        is_custom_archive(header) <==> (header.len() >= 5 && header[0] == 80u8 && header[1]
            == 71u8 && header[2] == 68u8 && header[3] == 77u8 && header[4] == 80u8),
{
    if header.len() >= 5 {
        let p = seq![80u8, 71u8, 68u8, 77u8, 80u8];
        if header[0] == 80u8 && header[1] == 71u8 && header[2] == 68u8 && header[3] == 77u8
            && header[4] == 80u8 {
            assert(header.take(5) =~= p);
        }
        if header.take(5) == p {
            assert(header.take(5)[0] == header[0]);
            assert(header.take(5)[1] == header[1]);
            assert(header.take(5)[2] == header[2]);
            assert(header.take(5)[3] == header[3]);
            assert(header.take(5)[4] == header[4]);
        }
    }
}

/// The retained diagnostic output never exceeds the limit and always ends
/// with the latest bytes.
pub proof fn capped_output_is_latest_tail(before: Seq<u8>, chunk: Seq<u8>)
    ensures
        last_at_most(before + chunk, OUTPUT_LIMIT as nat).len() <= OUTPUT_LIMIT,
        ({
            let kept = last_at_most(before + chunk, OUTPUT_LIMIT as nat);
            let all = before + chunk;
            kept == all.skip(all.len() - kept.len())
        }),
{
    let all = before + chunk;
    if all.len() <= OUTPUT_LIMIT {
        assert(all.skip(0) == all);
    }
}

} // verus!
