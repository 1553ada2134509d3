//! A tracer that keeps a log of the memory that is allocated and freed in a
//! pipeline, and writes it to a file.
use regex::Regex;
use vstd::prelude::*;

use crate::text::{
    append_decimal, append_padded_hex, append_quoted, decimal, escaped, lemma_digits_are_read,
    lemma_escaped_is_read, lemma_padded_hex_is_read, lemma_quoted_has_no_break, padded_hex, quoted,
    reading, unescaped,
};

verus! {

/// A compiled regular expression of the regex crate.
#[verifier::external_type_specification]
#[verifier::external_body]
pub struct ExRegex(regex::Regex);

/// Why the regex crate did not compile an expression.
#[verifier::external_type_specification]
#[verifier::external_body]
pub struct ExRegexError(regex::Error);

/// What `regex::Regex::new` gives for a pattern.
pub uninterp spec fn compiled(pattern: Seq<char>) -> Result<regex::Regex, regex::Error>;

/// Calls `regex::Regex::new`, whose result depends on the pattern alone: it is
/// named, and nothing else is claimed of it.
#[verifier::external_body]
fn compile(pattern: &str) -> (r: Result<regex::Regex, regex::Error>)
    ensures
        r == compiled(pattern@),
{
    Regex::new(pattern)
}

/// Something that happened to a piece of memory.
#[derive(Debug)]
pub struct MemoryEvent {
    pub timestamp: u64,
    pub ptr: usize,
    /// The memory that this one is a part of, or zero.
    pub parent: usize,
    pub size: usize,
    pub is_alloc: bool,
    /// The name of the kind of memory.
    pub memory_type: Vec<u8>,
}

impl MemoryEvent {
    pub open spec fn kind(self) -> Seq<char> {
        if self.is_alloc {
            "alloc"@
        } else {
            "free"@
        }
    }

    /// The line that stands for the event in the log file; the kind of memory
    /// is quoted.
    pub open spec fn line(self) -> Seq<char> {
        decimal(self.timestamp as nat) + ","@ + self.kind() + ","@ + decimal(self.ptr as nat)
            + ",0x"@ + padded_hex(self.parent as nat, 8) + ","@ + quoted(self.memory_type@) + ","@
            + decimal(self.size as nat) + "\n"@
    }

    pub fn event_type(&self) -> (r: &str)
        ensures
            r@ == self.kind(),
    {
        if self.is_alloc {
            "alloc"
        } else {
            "free"
        }
    }

    /// The line that stands for the event in the log file.
    pub fn to_line(&self) -> (r: String)
        ensures
            r@ == self.line(),
    {
        let mut line = String::new();
        append_decimal(&mut line, self.timestamp);
        line.append(",");
        line.append(self.event_type());
        line.append(",");
        append_decimal(&mut line, self.ptr as u64);
        line.append(",0x");
        append_padded_hex(&mut line, self.parent as u64, 8);
        line.append(",");
        append_quoted(&mut line, &self.memory_type);
        line.append(",");
        append_decimal(&mut line, self.size as u64);
        line.append("\n");
        proof {
            assert(Seq::<char>::empty() + decimal(self.timestamp as nat) =~= decimal(
                self.timestamp as nat,
            ));
        }
        line
    }
}

/// The parameters of the tracer, as far as they were given.
#[derive(Debug)]
pub struct Params {
    pub file: Option<String>,
    pub include_filter: Option<String>,
    pub exclude_filter: Option<String>,
}

/// Where the log goes, and the filters that were asked for.
#[derive(Debug)]
pub struct Settings {
    pub file: String,
    pub include_filter: Option<Regex>,
    pub exclude_filter: Option<Regex>,
}

/// A filter that could be compiled.
pub open spec fn usable(filter: Result<Regex, regex::Error>) -> Option<Regex> {
    match filter {
        Ok(filter) => Some(filter),
        Err(_) => None,
    }
}

/// The filter to use after looking at a parameter: an unusable one is none at
/// all, and without the parameter the filter stays.
pub open spec fn updated_filter(
    param: Option<Result<Regex, regex::Error>>,
    before: Option<Regex>,
) -> Option<Regex> {
    match param {
        Some(filter) => usable(filter),
        None => before,
    }
}

/// The compiled form of a filter parameter.
pub open spec fn compiled_param(param: Option<String>) -> Option<Result<Regex, regex::Error>> {
    match param {
        Some(pattern) => Some(compiled(pattern@)),
        None => None,
    }
}

impl Settings {
    pub fn new() -> (r: Self)
        ensures
            r.file@ == "/tmp/memory_tracer.log"@,
            r.include_filter is None,
            r.exclude_filter is None,
    {
        Settings {
            file: "/tmp/memory_tracer.log".to_owned(),
            include_filter: None,
            exclude_filter: None,
        }
    }

    /// Takes over the parameters that were given.
    pub fn update_from_params(&mut self, params: Params)
        ensures
            final(self).file == (match params.file {
                Some(file) => file,
                None => old(self).file,
            }),
            final(self).include_filter == updated_filter(
                compiled_param(params.include_filter),
                old(self).include_filter,
            ),
            final(self).exclude_filter == updated_filter(
                compiled_param(params.exclude_filter),
                old(self).exclude_filter,
            ),
    {
        let include_filter = match params.include_filter {
            Some(pattern) => Some(compile(pattern.as_str())),
            None => None,
        };
        let exclude_filter = match params.exclude_filter {
            Some(pattern) => Some(compile(pattern.as_str())),
            None => None,
        };
        self.update(params.file, include_filter, exclude_filter);
    }

    /// Takes over the parameters that were given, with the filters compiled.
    pub fn update(
        &mut self,
        file: Option<String>,
        include_filter: Option<Result<Regex, regex::Error>>,
        exclude_filter: Option<Result<Regex, regex::Error>>,
    )
        ensures
            final(self).file == (match file {
                Some(file) => file,
                None => old(self).file,
            }),
            final(self).include_filter == updated_filter(
                include_filter,
                old(self).include_filter,
            ),
            final(self).exclude_filter == updated_filter(
                exclude_filter,
                old(self).exclude_filter,
            ),
    {
        if let Some(file) = file {
            self.file = file;
        }
        if let Some(filter) = include_filter {
            self.include_filter = match filter {
                Ok(filter) => Some(filter),
                Err(_) => None,
            };
        }
        if let Some(filter) = exclude_filter {
            self.exclude_filter = match filter {
                Ok(filter) => Some(filter),
                Err(_) => None,
            };
        }
    }
}

/// Keeps the log.
#[derive(Debug)]
pub struct MemoryTracer {
    pub log: Vec<MemoryEvent>,
    pub settings: Settings,
    /// The log was written to a file.
    pub logs_written: bool,
}

/// The lines of a log.
pub open spec fn lines(log: Seq<MemoryEvent>) -> Seq<Seq<char>> {
    log.map_values(|event: MemoryEvent| event.line())
}

/// The characters of each text.
pub open spec fn texts(strings: Seq<String>) -> Seq<Seq<char>> {
    strings.map_values(|s: String| s@)
}

impl MemoryTracer {
    pub fn new() -> (r: Self)
        ensures
            r.log@ == Seq::<MemoryEvent>::empty(),
            r.settings.file@ == "/tmp/memory_tracer.log"@,
            r.settings.include_filter is None,
            r.settings.exclude_filter is None,
            !r.logs_written,
    {
        MemoryTracer { log: Vec::new(), settings: Settings::new(), logs_written: false }
    }

    /// Logs that memory was allocated.
    pub fn memory_init(
        &mut self,
        timestamp: u64,
        ptr: usize,
        parent: Option<usize>,
        size: usize,
        memory_type: Vec<u8>,
    )
        ensures
            final(self).log@ == old(self).log@.push(
                MemoryEvent {
                    timestamp,
                    ptr,
                    parent: parent.unwrap_or(0),
                    size,
                    is_alloc: true,
                    memory_type,
                },
            ),
            final(self).settings == old(self).settings,
            final(self).logs_written == old(self).logs_written,
    {
        let parent: usize = match parent {
            Some(parent) => parent,
            None => 0,
        };
        self.log.push(
            MemoryEvent { timestamp, ptr, parent, size, is_alloc: true, memory_type },
        );
    }

    /// Logs that memory is about to be freed.
    pub fn memory_free_pre(
        &mut self,
        timestamp: u64,
        ptr: usize,
        parent: Option<usize>,
        size: usize,
        memory_type: Vec<u8>,
    )
        ensures
            final(self).log@ == old(self).log@.push(
                MemoryEvent {
                    timestamp,
                    ptr,
                    parent: parent.unwrap_or(0),
                    size,
                    is_alloc: false,
                    memory_type,
                },
            ),
            final(self).settings == old(self).settings,
            final(self).logs_written == old(self).logs_written,
    {
        let parent: usize = match parent {
            Some(parent) => parent,
            None => 0,
        };
        self.log.push(
            MemoryEvent { timestamp, ptr, parent, size, is_alloc: false, memory_type },
        );
    }

    /// The file to write the log to: the given one, or else that of the
    /// settings.
    pub fn log_path(&self, file_path: &Option<String>) -> (r: String)
        ensures
            r@ == (match *file_path {
                Some(path) => path@,
                None => self.settings.file@,
            }),
    {
        match file_path {
            Some(path) => path.clone(),
            None => self.settings.file.clone(),
        }
    }

    /// Empties the log into lines for the file, if the file could be created;
    /// else the log is kept.
    pub fn write_log(&mut self, file_created: bool) -> (r: Vec<String>)
        ensures
            final(self).settings == old(self).settings,
            if file_created {
                &&& texts(r@) == lines(old(self).log@)
                &&& final(self).log@ == Seq::<MemoryEvent>::empty()
                &&& final(self).logs_written
            } else {
                &&& r@ == Seq::<String>::empty()
                &&& *final(self) == *old(self)
            },
    {
        let mut written: Vec<String> = Vec::new();
        if !file_created {
            return written;
        }
        let mut log: Vec<MemoryEvent> = Vec::new();
        std::mem::swap(&mut log, &mut self.log);
        self.logs_written = true;
        let mut i: usize = 0;
        while i < log.len()
            invariant
                i <= log.len(),
                written@.len() == i,
                forall|j: int| 0 <= j < i ==> (#[trigger] written@[j])@ == log@[j].line(),
            decreases log.len() - i,
        {
            written.push(log[i].to_line());
            i += 1;
        }
        proof {
            assert(texts(written@) =~= lines(old(self).log@));
        }
        written
    }

    /// Whether the log is to be written when the tracer goes away: not if it
    /// was written on demand, which would be overwritten.
    pub fn dispose(&self) -> (r: bool)
        ensures
            r == !self.logs_written,
    {
        !self.logs_written
    }
}

/// Something that a tracer is told.
pub enum TracerStep {
    /// Memory was allocated or freed.
    Event(MemoryEvent),
    /// The log is to be written, and the file could be created.
    Write,
}

/// The events among the steps.
pub open spec fn events(steps: Seq<TracerStep>) -> Seq<MemoryEvent>
    decreases steps.len(),
{
    if steps.len() == 0 {
        Seq::empty()
    } else {
        let before = events(steps.drop_last());
        match steps.last() {
            TracerStep::Event(event) => before.push(event),
            TracerStep::Write => before,
        }
    }
}

/// The log after the steps, and all lines that were written on the way.
pub open spec fn traced(steps: Seq<TracerStep>) -> (Seq<MemoryEvent>, Seq<Seq<char>>)
    decreases steps.len(),
{
    if steps.len() == 0 {
        (Seq::empty(), Seq::empty())
    } else {
        let (log, written) = traced(steps.drop_last());
        match steps.last() {
            TracerStep::Event(event) => (log.push(event), written),
            TracerStep::Write => (Seq::empty(), written + lines(log)),
        }
    }
}

/// However often the log is written, every event is written once and in order,
/// and what is not written yet is in the log.
pub proof fn law_every_event_is_written_once(steps: Seq<TracerStep>)
    ensures
        traced(steps).1 + lines(traced(steps).0) == lines(events(steps)),
    decreases steps.len(),
{
    if steps.len() > 0 {
        law_every_event_is_written_once(steps.drop_last());
        let (log, written) = traced(steps.drop_last());
        let before = events(steps.drop_last());
        match steps.last() {
            TracerStep::Event(event) => {
                assert(lines(log.push(event)) =~= lines(log).push(event.line()));
                assert(lines(before.push(event)) =~= lines(before).push(event.line()));
                assert(written + lines(log).push(event.line()) =~= (written + lines(log)).push(
                    event.line(),
                ));
            },
            TracerStep::Write => {
                assert(written + lines(log) + lines(Seq::<MemoryEvent>::empty()) =~= written
                    + lines(log));
            },
        }
    } else {
        assert(lines(Seq::<MemoryEvent>::empty()) =~= Seq::<Seq<char>>::empty());
    }
}

/// Lines end where the text does, and only there: the fields of an event hold
/// no line break.
pub proof fn law_one_line_per_event(event: MemoryEvent, i: int)
    requires
        0 <= i < event.line().len(),
    ensures
        event.line()[i] == '\n' <==> i == event.line().len() - 1,
{
    reveal_strlit(",");
    reveal_strlit(",0x");
    reveal_strlit("alloc");
    reveal_strlit("free");
    reveal_strlit("\n");
    lemma_no_break(event.timestamp as nat, 10);
    lemma_no_break(event.ptr as nat, 10);
    lemma_no_break(event.size as nat, 10);
    lemma_no_break(event.parent as nat, 16);
    let text = event.line();
    let body = text.drop_last();
    assert(text =~= body.push('\n'));
    let a = decimal(event.timestamp as nat);
    let b = event.kind();
    let c = decimal(event.ptr as nat);
    let d = padded_hex(event.parent as nat, 8);
    let e = quoted(event.memory_type@);
    lemma_quoted_has_no_break(event.memory_type@);
    let f = decimal(event.size as nat);
    assert(body =~= a + ","@ + b + ","@ + c + ",0x"@ + d + ","@ + e + ","@ + f);
    assert forall|k: int| 0 <= k < d.len() implies d[k] != '\n' by {
        let digits = crate::text::digits(event.parent as nat, 16);
        if digits.len() < 8 {
            let zeroes = (8 - digits.len()) as int;
            if k >= zeroes {
                assert(d[k] == digits[k - zeroes]);
            }
        }
    }
    assert forall|k: int| 0 <= k < body.len() implies body[k] != '\n' by {
        let n1 = a.len() as int;
        let n2 = n1 + 1;
        let n3 = n2 + b.len();
        let n4 = n3 + 1;
        let n5 = n4 + c.len();
        let n6 = n5 + 3;
        let n7 = n6 + d.len();
        let n8 = n7 + 1;
        let n9 = n8 + e.len();
        if k < n1 {
            assert(body[k] == a[k]);
        } else if k < n2 {
        } else if k < n3 {
            assert(body[k] == b[k - n2]);
        } else if k < n4 {
        } else if k < n5 {
            assert(body[k] == c[k - n4]);
        } else if k < n6 {
        } else if k < n7 {
            assert(body[k] == d[k - n6]);
        } else if k < n8 {
        } else if k < n9 {
            assert(body[k] == e[k - n8]);
            if e[k - n8] == '\n' {
                assert(e.contains('\n'));
            }
        } else if k < n9 + 1 {
        } else {
            assert(body[k] == f[k - n9 - 1]);
        }
    }
}

proof fn lemma_no_break(n: nat, base: nat)
    requires
        2 <= base <= 16,
    ensures
        forall|k: int|
            0 <= k < crate::text::digits(n, base).len() ==> #[trigger] crate::text::digits(
                n,
                base,
            )[k] != '\n',
    decreases n,
{
    if n >= base {
        assert(n / base < n) by (nonlinear_arith)
            requires
                base >= 2,
                n >= base,
        ;
        lemma_no_break(n / base, base);
        let text = crate::text::digits(n, base);
        let front = crate::text::digits(n / base, base);
        assert(text == front.push(crate::text::digit(n % base)));
        assert forall|k: int| 0 <= k < text.len() implies #[trigger] text[k] != '\n' by {
            if k < front.len() {
                assert(text[k] == front[k]);
            }
        }
    }
}

/// The line has the fields of the event between commas: when it happened, what it was,
/// the address, that of the parent in hexadecimal with at least eight digits, the
/// quoted kind of memory, and the size.
pub open spec fn has_the_fields(
    line: Seq<char>,
    event: MemoryEvent,
    timestamp: Seq<char>,
    address: Seq<char>,
    parent: Seq<char>,
    memory_type: Seq<char>,
    size: Seq<char>,
) -> bool {
    &&& reading(timestamp, 10) == event.timestamp
    &&& reading(address, 10) == event.ptr
    &&& reading(parent, 16) == event.parent && parent.len() >= 8
    &&& unescaped(memory_type) == event.memory_type@
    &&& reading(size, 10) == event.size
    &&& line == timestamp + seq![','] + (if event.is_alloc {
        seq!['a', 'l', 'l', 'o', 'c']
    } else {
        seq!['f', 'r', 'e', 'e']
    }) + seq![','] + address + seq![',', '0', 'x'] + parent + seq![',', '"'] + memory_type + seq![
        '"',
        ',',
    ] + size + seq!['\n']
}

/// From the line of an event the event is read back.
pub proof fn law_line_is_read_back(event: MemoryEvent, r: String)
    requires
        call_ensures(MemoryEvent::to_line, (&event,), r),
    ensures
        exists|a: Seq<char>, b: Seq<char>, c: Seq<char>, d: Seq<char>, e: Seq<char>|
            has_the_fields(r@, event, a, b, c, d, e),
{
    reveal_strlit(",");
    reveal_strlit(",0x");
    reveal_strlit("alloc");
    reveal_strlit("free");
    reveal_strlit("\n");
    lemma_digits_are_read(event.timestamp as nat, 10);
    lemma_digits_are_read(event.ptr as nat, 10);
    lemma_digits_are_read(event.size as nat, 10);
    lemma_padded_hex_is_read(event.parent as nat, 8, 0);
    lemma_escaped_is_read(event.memory_type@);
    let a = decimal(event.timestamp as nat);
    let b = decimal(event.ptr as nat);
    let c = padded_hex(event.parent as nat, 8);
    let d = escaped(event.memory_type@);
    let e = decimal(event.size as nat);
    assert(event.kind() =~= (if event.is_alloc {
        seq!['a', 'l', 'l', 'o', 'c']
    } else {
        seq!['f', 'r', 'e', 'e']
    }));
    assert(r@ =~= a + seq![','] + (if event.is_alloc {
        seq!['a', 'l', 'l', 'o', 'c']
    } else {
        seq!['f', 'r', 'e', 'e']
    }) + seq![','] + b + seq![',', '0', 'x'] + c + seq![',', '"'] + d + seq!['"', ','] + e + seq![
        '\n',
    ]);
    assert(has_the_fields(r@, event, a, b, c, d, e));
}

/// Of the parameters, only those that are given count: a file is taken over, a filter
/// that compiles too, and one that does not leaves no filter.
pub proof fn law_given_parameters_count(
    settings: &mut Settings,
    file: Option<String>,
    included: Option<Result<Regex, regex::Error>>,
    excluded: Option<Result<Regex, regex::Error>>,
)
    requires
        call_ensures(Settings::update, (settings, file, included, excluded), ()),
    ensures
        file is Some ==> final(settings).file == file->0,
        file is None ==> final(settings).file == old(settings).file,
        included is None ==> final(settings).include_filter == old(settings).include_filter,
        included matches Some(Ok(filter)) ==> final(settings).include_filter == Some(filter),
        included matches Some(Err(_)) ==> final(settings).include_filter is None,
        excluded is None ==> final(settings).exclude_filter == old(settings).exclude_filter,
        excluded matches Some(Ok(filter)) ==> final(settings).exclude_filter == Some(filter),
        excluded matches Some(Err(_)) ==> final(settings).exclude_filter is None,
{
}

/// Parameters as texts count like their compiled forms.
pub proof fn law_parameters_are_compiled(
    first: &mut Settings,
    second: &mut Settings,
    params: Params,
    included: Option<Result<Regex, regex::Error>>,
    excluded: Option<Result<Regex, regex::Error>>,
)
    requires
        *second == *old(first),
        call_ensures(Settings::update_from_params, (first, params), ()),
        params.include_filter is Some <==> included is Some,
        params.exclude_filter is Some <==> excluded is Some,
        included is Some ==> included->0 == compiled(params.include_filter->0@),
        excluded is Some ==> excluded->0 == compiled(params.exclude_filter->0@),
        call_ensures(Settings::update, (second, params.file, included, excluded), ()),
    ensures
        final(first).file == final(second).file,
        final(first).include_filter == final(second).include_filter,
        final(first).exclude_filter == final(second).exclude_filter,
        params.file is Some ==> final(first).file == params.file->0,
        params.include_filter is Some && compiled(params.include_filter->0@) is Err
            ==> final(first).include_filter is None,
        params.exclude_filter is Some && compiled(params.exclude_filter->0@) is Err
            ==> final(first).exclude_filter is None,
{
}

/// What happens is logged behind what was logged before: an allocation as it was told,
/// and a release too; memory that is no part of another has no parent.
pub proof fn law_events_are_logged_in_order(
    first: &mut MemoryTracer,
    second: &mut MemoryTracer,
    timestamp: u64,
    ptr: usize,
    parent: Option<usize>,
    size: usize,
    memory_type: Vec<u8>,
    i: int,
)
    requires
        call_ensures(
            MemoryTracer::memory_init,
            (first, timestamp, ptr, parent, size, memory_type),
            (),
        ),
        *second == *final(first),
        call_ensures(
            MemoryTracer::memory_free_pre,
            (second, timestamp, ptr, parent, size, memory_type),
            (),
        ),
    ensures
        ({
            let n = old(first).log@.len() as int;
            let log = final(second).log@;
            &&& log.len() == n + 2
            &&& 0 <= i < n ==> log[i] == old(first).log@[i]
            &&& log[n].is_alloc && !log[n + 1].is_alloc
            &&& log[n].timestamp == timestamp && log[n].ptr == ptr && log[n].size == size
            &&& log[n].memory_type == memory_type
            &&& parent is Some ==> log[n].parent == parent->0
            &&& parent is None ==> log[n].parent == 0
            &&& log[n + 1] == (MemoryEvent { is_alloc: false, ..log[n] })
        }),
        final(second).settings == old(first).settings,
        final(second).logs_written == old(first).logs_written,
{
}

/// The log is written to the given file, or else to that of the settings.
pub proof fn law_given_path_comes_first(
    tracer: MemoryTracer,
    path: String,
    given: String,
    usual: String,
)
    requires
        call_ensures(MemoryTracer::log_path, (&tracer, &Some(path)), given),
        call_ensures(MemoryTracer::log_path, (&tracer, &None), usual),
    ensures
        given@ == path@,
        usual@ == tracer.settings.file@,
{
}

/// Where the file could be created every event has its line, in order, and the log is
/// empty then and not written again at the end; else nothing changes.
pub proof fn law_log_is_written_line_by_line(
    tracer: &mut MemoryTracer,
    created: bool,
    r: Vec<String>,
    line: String,
    i: int,
    before: bool,
    after: bool,
)
    requires
        call_ensures(MemoryTracer::write_log, (tracer, created), r),
        call_ensures(MemoryTracer::dispose, (&*old(tracer),), before),
        call_ensures(MemoryTracer::dispose, (&*final(tracer),), after),
        created && 0 <= i < old(tracer).log@.len() ==> call_ensures(
            MemoryEvent::to_line,
            (&old(tracer).log@[i],),
            line,
        ),
    ensures
        created ==> r@.len() == old(tracer).log@.len(),
        created && 0 <= i < r@.len() ==> r@[i]@ == line@,
        created ==> final(tracer).log@.len() == 0 && final(tracer).logs_written && !after,
        created ==> final(tracer).settings == old(tracer).settings,
        !created ==> r@.len() == 0 && *final(tracer) == *old(tracer),
        before <==> !old(tracer).logs_written,
{
    if created {
        assert(texts(r@).len() == lines(old(tracer).log@).len());
        if 0 <= i < r@.len() {
            assert(texts(r@)[i] == r@[i]@);
            assert(lines(old(tracer).log@)[i] == old(tracer).log@[i].line());
        }
    }
}

/// A new tracer has logged nothing, filters nothing, and writes its log at the end.
pub proof fn law_new_tracer_writes_at_the_end(tracer: MemoryTracer, settings: Settings, r: bool)
    requires
        call_ensures(MemoryTracer::new, (), tracer),
        call_ensures(Settings::new, (), settings),
        call_ensures(MemoryTracer::dispose, (&tracer,), r),
    ensures
        r,
        tracer.log@.len() == 0,
        tracer.settings.file@ == settings.file@,
        settings.file@ == "/tmp/memory_tracer.log"@,
        settings.include_filter is None && settings.exclude_filter is None,
        tracer.settings.include_filter is None && tracer.settings.exclude_filter is None,
{
}

/// An event is an allocation or a release, and says which.
pub proof fn law_kinds_of_events_differ(event: MemoryEvent, r: &str)
    requires
        call_ensures(MemoryEvent::event_type, (&event,), r),
    ensures
        event.is_alloc <==> r@ == seq!['a', 'l', 'l', 'o', 'c'],
        !event.is_alloc <==> r@ == seq!['f', 'r', 'e', 'e'],
{
    reveal_strlit("alloc");
    reveal_strlit("free");
    assert("alloc"@ =~= seq!['a', 'l', 'l', 'o', 'c']);
    assert("free"@ =~= seq!['f', 'r', 'e', 'e']);
    assert("alloc"@.len() == 5 && "free"@.len() == 4);
}

} // verus!
