use vstd::prelude::*;
use crate::banner::{trimmed_end, Banner, BannerError};
use crate::config::GlobalConfig;
use crate::filesystem::{Filesystems, MountInfo, PreparedFilesystems};
use crate::line::{Constraints, Line};
use crate::memory::{Memory, MemoryError};

verus! {

/// What the host reported, gathered before the widgets run.
#[derive(Debug)]
pub struct HostData {
    /// The mount table, or why it could not be read.
    pub mounts: Result<Vec<MountInfo>, String>,
    /// Memory figures by name, in bytes, or why they could not be read.
    pub meminfo: Result<Vec<(String, u64)>, MemoryError>,
}

/// A dashboard widget, before or after preparing.
#[derive(Clone, Debug)]
pub enum Component {
    Banner(Banner),
    Filesystems(Filesystems),
    PreparedFilesystems(PreparedFilesystems),
    Memory(Memory),
}

/// Text shown when a banner is drawn without its command's output.
pub open spec fn missing_output_spec() -> Seq<char> {
    "the command was not run"@
}

/// The width a constraint asks for, if any.
pub open spec fn asked_width(c: Option<Constraints>) -> Option<usize> {
    match c {
        Some(k) => k.min_width,
        None => None,
    }
}

/// The largest width asked for by `cs`, or zero.
pub open spec fn widest(cs: Seq<Option<Constraints>>) -> int
    decreases cs.len(),
{
    if cs.len() == 0 {
        0
    } else {
        let rest = widest(cs.drop_last());
        match asked_width(cs.last()) {
            Some(w) => if w > rest {
                w as int
            } else {
                rest
            },
            None => rest,
        }
    }
}

/// Every width asked for is at most the widest, which fits `usize`.
pub proof fn lemma_widest_bounds(cs: Seq<Option<Constraints>>, i: int)
    requires
        0 <= i < cs.len(),
    ensures
        asked_width(cs[i]) matches Some(w) ==> w <= widest(cs),
        0 <= widest(cs) <= usize::MAX,
    decreases cs.len(),
{
    let rest = cs.drop_last();
    if i < cs.len() - 1 {
        lemma_widest_bounds(rest, i);
        assert(rest[i] == cs[i]);
    } else if cs.len() > 1 {
        lemma_widest_bounds(rest, 0);
    }
}

impl Component {
    /// Prepared data that drawing relies on.
    pub open spec fn wf(&self) -> bool {
        match self {
            Component::Filesystems(f) => f.wf(),
            Component::PreparedFilesystems(p) => p.wf(),
            _ => true,
        }
    }

    /// `r` is what preparing this widget gives. A filesystem widget hands
    /// over to its prepared form with the table's width, or stays as it is
    /// with an empty constraint where it failed; the others stay as they are
    /// and ask for nothing.
    pub open spec fn prepares_to(self, config: GlobalConfig, host: HostData, r: (Component, Option<Constraints>)) -> bool {
        &&& r.0.wf()
        &&& match self {
            Component::Filesystems(f) => exists|o| #[trigger] f.outcome(config, host.mounts, o) && match o {
                Ok((p, c)) => r.0 == Component::PreparedFilesystems(p) && r.1 == Some(c),
                Err(_) => r.0 == self && r.1 == Some(Constraints { min_width: None }),
            },
            _ => r.0 == self && r.1 is None,
        }
    }

    /// `lines` are this widget's output, ended by a blank line. A failure
    /// shows as one line naming the widget and the error.
    pub open spec fn prints(
        self,
        config: GlobalConfig,
        width: Option<usize>,
        host: HostData,
        output: Option<Result<String, BannerError>>,
        lines: Seq<Line>,
    ) -> bool {
        let body = lines.drop_last();
        &&& lines.len() >= 1
        &&& lines.last().is_text(Seq::empty())
        &&& match self {
            Component::Banner(b) => body.len() == 1 && match output {
                Some(Ok(o)) => body[0].is_colored(b.color, trimmed_end(o@)),
                Some(Err(e)) => body[0].is_text("Banner error: "@ + e.message_spec()),
                None => body[0].is_text("Banner error: "@ + missing_output_spec()),
            },
            Component::Filesystems(f) => exists|o| #[trigger] f.outcome(config, host.mounts, o) && match o {
                Ok((p, _)) => p.renders(body),
                Err(e) => body.len() == 1 && body[0].is_text("Filesystem error: "@ + e.message_spec()),
            },
            Component::PreparedFilesystems(p) => p.renders(body),
            Component::Memory(m) => exists|o| #[trigger] m.outcome(config, width, host.meminfo, o) && match o {
                Ok(ls) => body == ls@,
                Err(e) => body.len() == 1 && body[0].is_text("Memory error: "@ + e.message_spec()),
            },
        }
    }

    /// Gathers what the widget needs before the width is known and reports
    /// the width it needs.
    pub fn prepare(self, global_config: &GlobalConfig, host: &HostData) -> (r: (Component, Option<Constraints>))
        requires
            self.wf(),
        ensures
            self.prepares_to(*global_config, *host, r),
    {
        match self {
            Component::Filesystems(f) => {
                let o = f.prepare_or_error(global_config, &host.mounts);
                match o {
                    Ok((p, c)) => (Component::PreparedFilesystems(p), Some(c)),
                    Err(_) => (Component::Filesystems(f), Some(Constraints { min_width: None })),
                }
            },
            other => (other, None),
        }
    }

    /// Draws the widget in `width` columns (its default where `None`),
    /// turning any failure into one line, and ends with a blank line.
    /// `output` is what the banner's command printed.
    pub fn print(
        self,
        global_config: &GlobalConfig,
        width: Option<usize>,
        host: &HostData,
        output: Option<Result<String, BannerError>>,
    ) -> (r: Vec<Line>)
        requires
            self.wf(),
        ensures
            self.prints(*global_config, width, *host, output, r@),
    {
        let ghost me = self;
        let mut lines: Vec<Line> = match self {
            Component::Banner(b) => {
                let out = match output {
                    Some(o) => o,
                    None => Err(BannerError::IOError { message: "the command was not run".to_string() }),
                };
                match b.print_or_error(out) {
                    Ok(ls) => ls,
                    Err(e) => vec![Line::Text(error_line("Banner error: ", &e.message()))],
                }
            },
            Component::Filesystems(f) => {
                let o = f.prepare_or_error(global_config, &host.mounts);
                match o {
                    Ok((p, _)) => p.print_or_error(),
                    Err(e) => vec![Line::Text(error_line("Filesystem error: ", &e.message()))],
                }
            },
            Component::PreparedFilesystems(p) => p.print_or_error(),
            Component::Memory(m) => {
                let o = m.print_or_error(global_config, width, &host.meminfo);
                match o {
                    Ok(ls) => ls,
                    Err(e) => vec![Line::Text(error_line("Memory error: ", &e.message()))],
                }
            },
        };
        let ghost body = lines@;
        lines.push(Line::Text(String::new()));
        assert(lines@.drop_last() =~= body);
        lines
    }
}

/// `prefix` followed by `message`.
fn error_line(prefix: &str, message: &String) -> (r: String)
    ensures
        r@ == prefix@ + message@,
{
    let mut r = prefix.to_string();
    r.append(message.as_str());
    r
}

} // verus!
