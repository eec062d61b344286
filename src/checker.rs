use vstd::prelude::*;
use vstd::string::StringExecFns;

use crate::error_log::{failure_line, format_failure, join_error_lines, join_lines, lines_model};
use crate::normalize::{normalize_url, normalized};
use crate::status::{Status, URLStatus};

verus! {

/// What the checker is asked to do.
#[derive(Debug)]
pub enum Message {
    /// Probe the entry at this index.
    CheckURL(usize),
    /// The probe of the entry at this index came back.
    CheckedURL(usize, Result<(), String>),
    /// Probe every entry.
    CheckAllURLs,
    /// Read the URL list again and start over.
    ResetAll,
    /// Put the error log on the clipboard.
    CopyError,
}

/// A message as a mathematical value.
pub enum Event {
    CheckOne(int),
    Completed(int, Result<(), Seq<char>>),
    CheckAll,
    Reset,
    CopyErrors,
}

impl Message {
    pub open spec fn model(&self) -> Event {
        match self {
            Message::CheckURL(i) => Event::CheckOne(*i as int),
            Message::CheckedURL(i, result) => Event::Completed(*i as int, outcome_model(*result)),
            Message::CheckAllURLs => Event::CheckAll,
            Message::ResetAll => Event::Reset,
            Message::CopyError => Event::CopyErrors,
        }
    }
}

pub open spec fn outcome_model(result: Result<(), String>) -> Result<(), Seq<char>> {
    match result {
        Ok(()) => Ok(()),
        Err(reason) => Err(reason@),
    }
}

/// The outside work that the caller performs after an update.
#[derive(Debug)]
pub enum Effect {
    Nothing,
    /// Probe each address and report it back under its index with
    /// `Message::CheckedURL`. The addresses are already normalized.
    Probe(Vec<(usize, String)>),
    /// Read the URL list again and hand it to `URLChecker::reset`.
    ReloadSource,
    /// Write this text to the clipboard.
    CopyToClipboard(String),
}

/// An effect as a mathematical value.
pub enum Action {
    Nothing,
    Probe(Seq<(int, Seq<char>)>),
    ReloadSource,
    CopyToClipboard(Seq<char>),
}

pub open spec fn probes_model(probes: Seq<(usize, String)>) -> Seq<(int, Seq<char>)> {
    probes.map_values(|p: (usize, String)| (p.0 as int, p.1@))
}

impl Effect {
    pub open spec fn model(&self) -> Action {
        match self {
            Effect::Nothing => Action::Nothing,
            Effect::Probe(probes) => Action::Probe(probes_model(probes@)),
            Effect::ReloadSource => Action::ReloadSource,
            Effect::CopyToClipboard(text) => Action::CopyToClipboard(text@),
        }
    }
}

/// The checker's state as a mathematical value: the entries in list order,
/// the error log's lines in the order the failures came in, and the banner
/// shown when the URL list could not be loaded.
pub struct CheckerModel {
    pub entries: Seq<(Seq<char>, Status)>,
    pub errors: Seq<Seq<char>>,
    pub startup_error: Option<Seq<char>>,
}

/// The banner shown when the URL list could not be loaded.
pub open spec fn load_banner(reason: Seq<char>) -> Seq<char> {
    "Could not read URLs from JSON file: "@ + reason
}

/// A freshly loaded list: every URL in file order, none checked yet.
pub open spec fn fresh_entries(urls: Seq<Seq<char>>) -> Seq<(Seq<char>, Status)> {
    urls.map_values(|u: Seq<char>| (u, Status::NotChecked))
}

/// The state after loading the URL list, or failing to.
pub open spec fn loaded(source: Result<Seq<Seq<char>>, Seq<char>>) -> CheckerModel {
    match source {
        Ok(urls) => CheckerModel {
            entries: fresh_entries(urls),
            errors: Seq::empty(),
            startup_error: None,
        },
        Err(reason) => CheckerModel {
            entries: Seq::empty(),
            errors: Seq::empty(),
            startup_error: Some(load_banner(reason)),
        },
    }
}

pub open spec fn source_model(source: Result<Vec<String>, String>) -> Result<Seq<Seq<char>>, Seq<char>> {
    match source {
        Ok(urls) => Ok(lines_model(urls@)),
        Err(reason) => Err(reason@),
    }
}

/// Marks entry `i` as being checked.
pub open spec fn begin_check(m: CheckerModel, i: int) -> CheckerModel {
    CheckerModel {
        entries: m.entries.update(i, (m.entries[i].0, Status::Checking)),
        errors: m.errors,
        startup_error: m.startup_error,
    }
}

/// Marks every entry as being checked.
pub open spec fn begin_check_all(m: CheckerModel) -> CheckerModel {
    CheckerModel {
        entries: m.entries.map_values(|e: (Seq<char>, Status)| (e.0, Status::Checking)),
        errors: m.errors,
        startup_error: m.startup_error,
    }
}

/// The status that a probe's outcome gives.
pub open spec fn status_of(result: Result<(), Seq<char>>) -> Status {
    match result {
        Ok(()) => Status::Accessible,
        Err(reason) => Status::Inaccessible(reason),
    }
}

/// Records the outcome of a probe of entry `i`, whatever its status was; a
/// failure also adds one line to the error log.
pub open spec fn complete_check(m: CheckerModel, i: int, result: Result<(), Seq<char>>) -> CheckerModel {
    let url = m.entries[i].0;
    CheckerModel {
        entries: m.entries.update(i, (url, status_of(result))),
        errors: match result {
            Ok(()) => m.errors,
            Err(reason) => m.errors.push(failure_line(url, reason)),
        },
        startup_error: m.startup_error,
    }
}

/// The probe sent for entry `i`.
pub open spec fn probe_of(m: CheckerModel, i: int) -> (int, Seq<char>) {
    (i, normalized(m.entries[i].0))
}

/// One probe per entry, in list order.
pub open spec fn all_probes(m: CheckerModel) -> Seq<(int, Seq<char>)> {
    Seq::new(m.entries.len(), |i: int| probe_of(m, i))
}

/// An event names an existing entry wherever it names one.
pub open spec fn event_allowed(m: CheckerModel, ev: Event) -> bool {
    match ev {
        Event::CheckOne(i) => 0 <= i < m.entries.len(),
        Event::Completed(i, _) => 0 <= i < m.entries.len(),
        _ => true,
    }
}

/// The next state and the outside work that an event leads to.
pub open spec fn step(m: CheckerModel, ev: Event) -> (CheckerModel, Action) {
    match ev {
        Event::CheckOne(i) => (begin_check(m, i), Action::Probe(seq![probe_of(m, i)])),
        Event::Completed(i, result) => (complete_check(m, i, result), Action::Nothing),
        Event::CheckAll => (begin_check_all(m), Action::Probe(all_probes(m))),
        Event::Reset => (m, Action::ReloadSource),
        Event::CopyErrors => (m, Action::CopyToClipboard(join_lines(m.errors))),
    }
}

/// The URL list with each entry's status, the error log and the load banner.
pub struct URLChecker {
    url_checks: Vec<(String, URLStatus)>,
    error_lines: Vec<String>,
    startup_error: Option<String>,
}

impl View for URLChecker {
    type V = CheckerModel;

    closed spec fn view(&self) -> CheckerModel {
        CheckerModel {
            entries: self.url_checks@.map_values(|e: (String, URLStatus)| (e.0@, e.1.model())),
            errors: lines_model(self.error_lines@),
            startup_error: match self.startup_error {
                Some(s) => Some(s@),
                None => None,
            },
        }
    }
}

impl URLChecker {
    /// The state right after loading the URL list, or failing to: the
    /// entries in file order, all not checked, an empty error log, and a
    /// banner exactly when loading failed.
    pub fn new(source: Result<Vec<String>, String>) -> (r: URLChecker)
        ensures
            r@ == loaded(source_model(source)),
    {
        match source {
            Ok(urls) => {
                let mut url_checks: Vec<(String, URLStatus)> = Vec::new();
                let mut i: usize = 0;
                while i < urls.len()
                    invariant
                        i <= urls@.len(),
                        url_checks@.len() == i,
                        forall|j: int|
                            0 <= j < i ==> url_checks@[j].0@ == urls@[j]@
                                && url_checks@[j].1.model() == Status::NotChecked,
                    decreases urls@.len() - i,
                {
                    url_checks.push((urls[i].clone(), URLStatus::NotChecked));
                    i = i + 1;
                }
                let r = URLChecker { url_checks, error_lines: Vec::new(), startup_error: None };
                assert(r@.entries =~= fresh_entries(lines_model(urls@)));
                assert(r@.errors =~= Seq::<Seq<char>>::empty());
                r
            },
            Err(reason) => {
                let mut banner = String::from_str("Could not read URLs from JSON file: ");
                banner.append(reason.as_str());
                let r = URLChecker {
                    url_checks: Vec::new(),
                    error_lines: Vec::new(),
                    startup_error: Some(banner),
                };
                assert(r@.entries =~= Seq::<(Seq<char>, Status)>::empty());
                assert(r@.errors =~= Seq::<Seq<char>>::empty());
                r
            },
        }
    }

    /// Starts over from a freshly read URL list: every entry is not checked,
    /// the error log is empty, and the banner tells whether loading failed.
    pub fn reset(&mut self, source: Result<Vec<String>, String>)
        ensures
            final(self)@ == loaded(source_model(source)),
    {
        *self = URLChecker::new(source);
    }

    /// The window title.
    pub fn title(&self) -> (r: String)
        ensures
            r@ == "URL Checker"@,
    {
        String::from_str("URL Checker")
    }

    /// Applies one message and says what outside work comes of it.
    pub fn update(&mut self, message: Message) -> (effect: Effect)
        requires
            event_allowed(old(self)@, message.model()),
        ensures
            (final(self)@, effect.model()) == step(old(self)@, message.model()),
    {
        match message {
            Message::CheckURL(i) => {
                let url = self.begin_check(i);
                let probes = vec![(i, url)];
                assert(probes_model(probes@) =~= seq![probe_of(old(self)@, i as int)]);
                Effect::Probe(probes)
            },
            Message::CheckedURL(i, result) => {
                self.complete_check(i, result);
                Effect::Nothing
            },
            Message::CheckAllURLs => Effect::Probe(self.begin_check_all()),
            Message::ResetAll => Effect::ReloadSource,
            Message::CopyError => Effect::CopyToClipboard(self.error_text()),
        }
    }

    /// Marks entry `i` as being checked and returns the address to probe.
    fn begin_check(&mut self, i: usize) -> (url: String)
        requires
            i < old(self)@.entries.len(),
        ensures
            final(self)@ == begin_check(old(self)@, i as int),
            url@ == normalized(old(self)@.entries[i as int].0),
    {
        let url = normalize_url(self.url_checks[i].0.as_str());
        self.url_checks[i].1 = URLStatus::Checking;
        assert(self@.entries =~= begin_check(old(self)@, i as int).entries);
        url
    }

    /// Marks every entry as being checked and returns one probe per entry.
    fn begin_check_all(&mut self) -> (probes: Vec<(usize, String)>)
        ensures
            final(self)@ == begin_check_all(old(self)@),
            probes_model(probes@) == all_probes(old(self)@),
    {
        let ghost m0 = self@;
        let ghost checks0 = self.url_checks@;
        let n = self.url_checks.len();
        let mut probes: Vec<(usize, String)> = Vec::new();
        let mut i: usize = 0;
        while i < n
            invariant
                n == checks0.len(),
                m0.entries.len() == n,
                forall|j: int| 0 <= j < n ==> #[trigger] m0.entries[j].0 == checks0[j].0@,
                i <= n,
                self.url_checks@.len() == n,
                self.error_lines@ == old(self).error_lines@,
                self.startup_error == old(self).startup_error,
                m0 == old(self)@,
                forall|j: int| 0 <= j < n ==> #[trigger] self.url_checks@[j].0 == checks0[j].0,
                forall|j: int| 0 <= j < i ==> #[trigger] self.url_checks@[j].1 is Checking,
                forall|j: int| i <= j < n ==> #[trigger] self.url_checks@[j].1 == checks0[j].1,
                probes@.len() == i,
                probes_model(probes@) =~= all_probes(m0).take(i as int),
            decreases n - i,
        {
            let url = normalize_url(self.url_checks[i].0.as_str());
            self.url_checks[i].1 = URLStatus::Checking;
            let ghost before = probes@;
            let ghost expected = probe_of(m0, i as int);
            assert(url@ == expected.1);
            probes.push((i, url));
            assert(probes@ == before.push((i, url)));
            assert forall|k: int| 0 <= k < i implies probes_model(probes@)[k] == all_probes(m0).take(
                i + 1,
            )[k] by {
                assert(probes@[k] == before[k]);
                assert(probes_model(before)[k] == all_probes(m0).take(i as int)[k]);
            }
            assert(probes_model(probes@)[i as int] == expected);
            assert(probes_model(probes@) =~= all_probes(m0).take(i + 1));
            i = i + 1;
        }
        assert(self@.entries =~= begin_check_all(m0).entries);
        assert(all_probes(m0).take(n as int) =~= all_probes(m0));
        probes
    }

    /// Records the outcome of a probe of entry `i`.
    fn complete_check(&mut self, i: usize, result: Result<(), String>)
        requires
            i < old(self)@.entries.len(),
        ensures
            final(self)@ == complete_check(old(self)@, i as int, outcome_model(result)),
    {
        match result {
            Ok(()) => {
                self.url_checks[i].1 = URLStatus::Accessible;
            },
            Err(reason) => {
                let line = format_failure(self.url_checks[i].0.as_str(), reason.as_str());
                self.error_lines.push(line);
                self.url_checks[i].1 = URLStatus::Inaccessible(reason);
                assert(self@.errors =~= old(self)@.errors.push(line@));
            },
        }
        assert(self@.entries =~= complete_check(old(self)@, i as int, outcome_model(result)).entries);
    }

    /// The error log as one text, one failure per line.
    pub fn error_text(&self) -> (r: String)
        ensures
            r@ == join_lines(self@.errors),
    {
        join_error_lines(&self.error_lines)
    }
    /// The number of entries.
    pub fn len(&self) -> (r: usize)
        ensures
            r == self@.entries.len(),
    {
        self.url_checks.len()
    }

    /// The URL of entry `i`, as it was loaded.
    pub fn url(&self, i: usize) -> (r: &str)
        requires
            i < self@.entries.len(),
        ensures
            r@ == self@.entries[i as int].0,
    {
        self.url_checks[i].0.as_str()
    }

    /// The status of entry `i`.
    pub fn status(&self, i: usize) -> (r: &URLStatus)
        requires
            i < self@.entries.len(),
        ensures
            r.model() == self@.entries[i as int].1,
    {
        &self.url_checks[i].1
    }

    /// The banner shown when the URL list could not be loaded.
    pub fn startup_error(&self) -> (r: Option<&str>)
        ensures
            match r {
                Some(s) => self@.startup_error == Some(s@),
                None => self@.startup_error is None,
            },
    {
        match &self.startup_error {
            Some(s) => Some(s.as_str()),
            None => None,
        }
    }
}

} // verus!
