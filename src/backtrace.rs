use vstd::prelude::*;
use crate::report::{decimal, decimal_string, format_optional_u64_sequence, rendered_values};

verus! {

/// One guest-level call frame read back from a faulting native stack.
pub struct LogicalFrame {
    pub local_function_id: usize,
    pub locals: Vec<Option<u64>>,
    pub stack: Vec<Option<u64>>,
}

/// The address range `[base, base + len)` of one loaded module's code.
#[derive(Clone, Copy, Debug, PartialEq, Eq, Structural)]
pub struct CodeRange {
    pub base: u64,
    pub len: u64,
}

impl CodeRange {
    pub open spec fn holds(self, addr: u64) -> bool {
        self.base <= addr && addr - self.base < self.len
    }

    /// Whether `addr` lies in the range.
    pub fn contains(&self, addr: u64) -> (b: bool)
        ensures
            b == self.holds(addr),
    {
        self.base <= addr && addr - self.base < self.len
    }
}

/// The first module whose code holds `addr`, if any.
pub open spec fn locate(modules: Seq<CodeRange>, addr: u64) -> Option<nat>
    decreases modules.len(),
{
    if modules.len() == 0 {
        None
    } else {
        match locate(modules.drop_last(), addr) {
            Some(i) => Some(i),
            None => if modules.last().holds(addr) {
                Some((modules.len() - 1) as nat)
            } else {
                None
            },
        }
    }
}

proof fn lemma_locate_meaning(modules: Seq<CodeRange>, addr: u64)
    ensures
        match locate(modules, addr) {
            Some(i) => i < modules.len() && modules[i as int].holds(addr) && forall|j: int|
                0 <= j < i ==> !#[trigger] modules[j].holds(addr),
            None => forall|j: int| 0 <= j < modules.len() ==> !#[trigger] modules[j].holds(addr),
        },
    decreases modules.len(),
{
    if modules.len() > 0 {
        let prefix = modules.drop_last();
        lemma_locate_meaning(prefix, addr);
        match locate(prefix, addr) {
            Some(i) => {
                assert forall|j: int| 0 <= j < i implies !#[trigger] modules[j].holds(addr) by {
                    assert(prefix[j] == modules[j]);
                }
                assert(prefix[i as int] == modules[i as int]);
            },
            None => {
                assert forall|j: int| 0 <= j < modules.len() - 1 implies !#[trigger] modules[j].holds(
                    addr,
                ) by {
                    assert(prefix[j] == modules[j]);
                }
            },
        }
    }
}

/// The index of the first module whose code holds `addr`; `None` when the
/// address belongs to no known module.
pub fn locate_module(modules: &Vec<CodeRange>, addr: u64) -> (r: Option<usize>)
    ensures
        r matches Some(i) ==> i < modules@.len() && locate(modules@, addr) == Some(i as nat),
        r is None ==> locate(modules@, addr) is None,
        r is None <==> forall|j: int| 0 <= j < modules@.len() ==> !#[trigger] modules@[j].holds(addr),
{
    proof {
        lemma_locate_meaning(modules@, addr);
    }
    let mut i: usize = 0;
    while i < modules.len()
        invariant
            i <= modules@.len(),
            forall|j: int| 0 <= j < i ==> !#[trigger] modules@[j].holds(addr),
        decreases modules@.len() - i,
    {
        if modules[i].contains(addr) {
            proof {
                lemma_unique_first(modules@, addr, i as nat);
            }
            return Some(i);
        }
        i = i + 1;
    }
    None
}

proof fn lemma_unique_first(modules: Seq<CodeRange>, addr: u64, i: nat)
    requires
        i < modules.len(),
        modules[i as int].holds(addr),
        forall|j: int| 0 <= j < i ==> !#[trigger] modules[j].holds(addr),
    ensures
        locate(modules, addr) == Some(i),
{
    lemma_locate_meaning(modules, addr);
    match locate(modules, addr) {
        Some(k) => {
            if k < i {
                assert(!modules[k as int].holds(addr));
            } else if k > i {
                assert(!modules[i as int].holds(addr));
            }
        },
        None => {
            assert(!modules[i as int].holds(addr));
        },
    }
}

/// Reads the guest frames of a fault at instruction address `ip`. The
/// module that holds `ip` is found first; only then is `read_frames` asked
/// for that module's frames. A fault that no module holds yields no frame.
pub fn walk_stack<F: FnOnce(usize) -> Vec<LogicalFrame>>(
    modules: &Vec<CodeRange>,
    ip: u64,
    read_frames: F,
) -> (r: Vec<LogicalFrame>)
    requires
        forall|i: usize| i < modules@.len() ==> read_frames.requires((i,)),
    ensures
        locate(modules@, ip) is None ==> r@.len() == 0,
        locate(modules@, ip) matches Some(i) ==> read_frames.ensures((i as usize,), r),
{
    match locate_module(modules, ip) {
        Some(i) => read_frames(i),
        None => Vec::new(),
    }
}

/// How the embedding program emphasizes a line of the report.
#[derive(Clone, Copy, Debug, PartialEq, Eq, Structural)]
pub enum Style {
    Plain,
    Alert,
    Notice,
    Strong,
}

/// One line of a fault report.
pub struct ReportLine {
    pub style: Style,
    pub text: String,
}

pub open spec fn line_views(lines: Seq<ReportLine>) -> Seq<(Style, Seq<char>)> {
    lines.map_values(|l: ReportLine| (l.style, l.text@))
}

pub open spec fn header_text() -> Seq<char> {
    "Wasmer encountered an error while running your WebAssembly program."@
}

pub open spec fn unreadable_text() -> Seq<char> {
    "Unknown fault address, cannot read stack."@
}

/// The lines that describe frame number `i`.
pub open spec fn frame_lines(i: nat, f: LogicalFrame) -> Seq<(Style, Seq<char>)> {
    seq![
        (Style::Strong, "* Frame "@ + decimal(i) + " @ Local function "@ + decimal(f.local_function_id as nat)),
        (Style::Plain, "  Locals: "@ + rendered_values(f.locals@)),
        (Style::Plain, "  Stack: "@ + rendered_values(f.stack@)),
        (Style::Plain, Seq::empty()),
    ]
}

/// The lines of all frames, innermost first.
pub open spec fn backtrace_lines(frames: Seq<LogicalFrame>) -> Seq<(Style, Seq<char>)>
    decreases frames.len(),
{
    if frames.len() == 0 {
        Seq::empty()
    } else {
        backtrace_lines(frames.drop_last()) + frame_lines((frames.len() - 1) as nat, frames.last())
    }
}

/// The report on a caught hardware fault: a header, then either the frames
/// or, when no frame could be read, a line saying that the stack cannot be
/// read.
pub open spec fn report_lines(frames: Seq<LogicalFrame>) -> Seq<(Style, Seq<char>)> {
    seq![(Style::Plain, Seq::empty()), (Style::Alert, header_text()), (Style::Plain, Seq::empty())]
        + if frames.len() == 0 {
        seq![(Style::Notice, unreadable_text())]
    } else {
        seq![(Style::Strong, "Backtrace:"@), (Style::Plain, Seq::empty())] + backtrace_lines(frames)
    }
}

fn text(s: &str) -> (r: String)
    ensures
        r@ == s@,
{
    let mut r = String::new();
    r.append(s);
    r
}

fn push_line(lines: &mut Vec<ReportLine>, style: Style, text: String)
    ensures
        line_views(final(lines)@) == line_views(old(lines)@).push((style, text@)),
{
    let ghost before = lines@;
    lines.push(ReportLine { style, text });
    proof {
        assert(line_views(lines@) =~= line_views(before).push((style, text@)));
    }
}

/// Renders the report on a caught hardware fault whose frames are `frames`.
pub fn render_report(frames: &Vec<LogicalFrame>) -> (r: Vec<ReportLine>)
    ensures
        line_views(r@) == report_lines(frames@),
{
    let mut lines: Vec<ReportLine> = Vec::new();
    push_line(&mut lines, Style::Plain, String::new());
    push_line(&mut lines, Style::Alert, text("Wasmer encountered an error while running your WebAssembly program."));
    push_line(&mut lines, Style::Plain, String::new());
    if frames.len() == 0 {
        push_line(&mut lines, Style::Notice, text("Unknown fault address, cannot read stack."));
        proof {
            assert(line_views(lines@) =~= report_lines(frames@));
        }
        return lines;
    }
    push_line(&mut lines, Style::Strong, text("Backtrace:"));
    push_line(&mut lines, Style::Plain, String::new());
    let ghost head = line_views(lines@);
    let mut i: usize = 0;
    while i < frames.len()
        invariant
            i <= frames@.len(),
            line_views(lines@) == head + backtrace_lines(frames@.subrange(0, i as int)),
        decreases frames@.len() - i,
    {
        let f = &frames[i];
        let mut title = text("* Frame ");
        let n = decimal_string(i as u64);
        title.append(n.as_str());
        title.append(" @ Local function ");
        let id = decimal_string(f.local_function_id as u64);
        title.append(id.as_str());
        let mut locals = text("  Locals: ");
        let lv = format_optional_u64_sequence(f.locals.as_slice());
        locals.append(lv.as_str());
        let mut stack = text("  Stack: ");
        let sv = format_optional_u64_sequence(f.stack.as_slice());
        stack.append(sv.as_str());
        let ghost before = line_views(lines@);
        push_line(&mut lines, Style::Strong, title);
        push_line(&mut lines, Style::Plain, locals);
        push_line(&mut lines, Style::Plain, stack);
        push_line(&mut lines, Style::Plain, String::new());
        proof {
            let next = frames@.subrange(0, i + 1);
            assert(next.drop_last() =~= frames@.subrange(0, i as int));
            assert(next.last() == frames@[i as int]);
            assert(line_views(lines@) =~= before + frame_lines(i as nat, frames@[i as int]));
        }
        i = i + 1;
    }
    proof {
        assert(frames@.subrange(0, i as int) =~= frames@);
        assert(line_views(lines@) =~= report_lines(frames@));
    }
    lines
}

/// A report on a fault whose stack could not be read says so in a line of
/// its own, where a report on readable frames lists them under a
/// `Backtrace:` title: the two can never be mistaken for one another.
pub proof fn lemma_unreadable_report_is_distinct(frames: Seq<LogicalFrame>)
    requires
        frames.len() > 0,
    ensures
        report_lines(Seq::empty()).len() == 4,
        report_lines(Seq::empty())[3] == (Style::Notice, unreadable_text()),
        report_lines(frames)[3] == (Style::Strong, "Backtrace:"@),
        report_lines(frames) != report_lines(Seq::empty()),
{
    assert(report_lines(frames)[3] == (Style::Strong, "Backtrace:"@));
    assert(report_lines(Seq::empty())[3] == (Style::Notice, unreadable_text()));
}

} // verus!
