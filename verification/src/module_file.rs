//! The fenced module document format. One document carries a
//! mandatory build-file section and an optional configuration
//! section, each opened by a fence line of its kind and closed by a
//! bare fence. The first section of each kind wins; opening a section
//! while another is being captured, or reaching the end of the
//! document inside a section, is fatal.

use vstd::prelude::*;
use vstd::string::*;

use crate::error::BuildError;
use crate::text;

verus! {

/// What the line walk is currently capturing.
#[derive(Debug, Clone, Copy, PartialEq, Eq)]
pub enum Capture {
    Idle,
    Containerfile,
    Config,
}

/// The two logical texts of one module document.
#[derive(Debug, Clone, PartialEq, Eq)]
pub struct ModuleData {
    pub containerfile: String,
    pub config: String,
}

/// Walk state: capture mode, the buffered section text, and the
/// sections already captured.
#[verifier::ext_equal]
pub struct ParseSt {
    pub cap: Capture,
    pub buf: Seq<char>,
    pub container: Option<Seq<char>>,
    pub config: Option<Seq<char>>,
}

/// `l` opens a configuration section.
pub open spec fn opens_config(l: Seq<char>) -> bool {
    text::lower_seq(text::trim_spec(l)) == text::lower_seq("```yaml"@)
}

/// `l` opens a build-file section.
pub open spec fn opens_containerfile(l: Seq<char>) -> bool {
    text::lower_seq(text::trim_spec(l)) == text::lower_seq("```containerfile"@) || text::lower_seq(
        text::trim_spec(l),
    ) == text::lower_seq("```dockerfile"@)
}

/// `l` closes the open section.
pub open spec fn closes_section(l: Seq<char>) -> bool {
    l == "```"@
}

pub open spec fn init_parse_st() -> ParseSt {
    ParseSt { cap: Capture::Idle, buf: Seq::empty(), container: Option::None, config: Option::None }
}

/// One line of the walk; an `Err` carries the message of the fatal
/// condition.
pub open spec fn module_step(st: ParseSt, l: Seq<char>) -> Result<ParseSt, Seq<char>> {
    if opens_config(l) {
        if st.config is Some {
            Result::Ok(st)
        } else if !(st.cap is Idle) {
            Result::Err("Found another config start line before finishing the previous one"@)
        } else {
            Result::Ok(ParseSt { cap: Capture::Config, ..st })
        }
    } else if opens_containerfile(l) {
        if st.container is Some {
            Result::Ok(st)
        } else if !(st.cap is Idle) {
            Result::Err(
                "Found another Containerfile start line before finishing the previous one"@,
            )
        } else {
            Result::Ok(ParseSt { cap: Capture::Containerfile, ..st })
        }
    } else if closes_section(l) {
        match st.cap {
            Capture::Idle => Result::Ok(st),
            Capture::Containerfile => Result::Ok(
                ParseSt {
                    cap: Capture::Idle,
                    buf: Seq::empty(),
                    container: Option::Some(st.buf),
                    config: st.config,
                },
            ),
            Capture::Config => Result::Ok(
                ParseSt {
                    cap: Capture::Idle,
                    buf: Seq::empty(),
                    container: st.container,
                    config: Option::Some(st.buf),
                },
            ),
        }
    } else {
        if st.cap is Idle {
            Result::Ok(st)
        } else {
            Result::Ok(ParseSt { buf: st.buf + l + "\n"@, ..st })
        }
    }
}

/// The walk from line `i` on.
pub open spec fn module_run(lines: Seq<Seq<char>>, i: int, st: ParseSt) -> Result<
    ParseSt,
    Seq<char>,
>
    decreases lines.len() - i,
{
    if i < 0 || i >= lines.len() {
        Result::Ok(st)
    } else {
        match module_step(st, lines[i]) {
            Result::Ok(st2) => module_run(lines, i + 1, st2),
            Result::Err(m) => Result::Err(m),
        }
    }
}

/// The parse of a whole module document: the build-file text and the
/// configuration text (empty when no configuration section exists),
/// or a fatal message.
pub open spec fn module_parse(text: Seq<char>) -> Result<(Seq<char>, Seq<char>), Seq<char>> {
    match module_run(text::lines_spec(text), 0, init_parse_st()) {
        Result::Err(m) => Result::Err(m),
        Result::Ok(st) => {
            if !(st.cap is Idle) {
                Result::Err("A section is not closed before the end of the module file"@)
            } else {
                match (st.container, st.config) {
                    (Option::None, Option::None) => Result::Err(
                        "Could not find containerfile or config in the module file"@,
                    ),
                    (Option::None, Option::Some(_)) => Result::Err(
                        "Found config in the module file, but no containerfile data"@,
                    ),
                    (Option::Some(c), Option::None) => Result::Ok((c, Seq::empty())),
                    (Option::Some(c), Option::Some(g)) => Result::Ok((c, g)),
                }
            }
        },
    }
}

/// View of an optional owned section text.
pub open spec fn opt_view(o: Option<String>) -> Option<Seq<char>> {
    match o {
        Option::Some(s) => Option::Some(s@),
        Option::None => Option::None,
    }
}

/// Parse one fenced module document.
pub fn parse_module_text(text: &str) -> (r: Result<ModuleData, BuildError>)
    ensures
        r is Ok <==> module_parse(text@) is Ok,
        r matches Ok(md) ==> (module_parse(text@) matches Ok(p) && md.containerfile@ == p.0
            && md.config@ == p.1),
        r matches Err(e) ==> (module_parse(text@) matches Err(m) && e matches
            BuildError::SchemaViolation { instance_path, schema_path, message } && instance_path@
            == Seq::<char>::empty() && schema_path@ == "module document"@ && message@ == m),
{
    let lines = text::split_lines(text);
    let ghost slines = text::lines_spec(text@);
    let mut cap = Capture::Idle;
    let mut buf = String::new();
    let mut container: Option<String> = Option::None;
    let mut config: Option<String> = Option::None;
    let mut i: usize = 0;
    proof {
        assert(ParseSt {
            cap: cap,
            buf: buf@,
            container: opt_view(container),
            config: opt_view(config),
        } =~= init_parse_st());
    }
    while i < lines.len()
        invariant
            lines@.len() == slines.len(),
            forall|j: int| 0 <= j < slines.len() ==> lines@[j]@ == slines[j],
            slines == text::lines_spec(text@),
            i <= slines.len(),
            module_run(slines, 0, init_parse_st()) == module_run(
                slines,
                i as int,
                ParseSt {
                    cap: cap,
                    buf: buf@,
                    container: opt_view(container),
                    config: opt_view(config),
                },
            ),
        decreases slines.len() - i,
    {
        let ghost st = ParseSt {
            cap: cap,
            buf: buf@,
            container: opt_view(container),
            config: opt_view(config),
        };
        let line = &lines[i];
        let trimmed = text::trim(line.as_str());
        if text::eq_ignore_ascii_case(trimmed, "```yaml") {
            match &config {
                Option::Some(_) => {},
                Option::None => {
                    match cap {
                        Capture::Idle => {
                            cap = Capture::Config;
                        },
                        _ => {
                            return Result::Err(
                                BuildError::SchemaViolation {
                                    instance_path: String::new(),
                                    schema_path: String::from_str("module document"),
                                    message: String::from_str(
                                        "Found another config start line before finishing the previous one",
                                    ),
                                },
                            );
                        },
                    }
                },
            }
        } else if text::eq_ignore_ascii_case(trimmed, "```containerfile")
            || text::eq_ignore_ascii_case(trimmed, "```dockerfile") {
            match &container {
                Option::Some(_) => {},
                Option::None => {
                    match cap {
                        Capture::Idle => {
                            cap = Capture::Containerfile;
                        },
                        _ => {
                            return Result::Err(
                                BuildError::SchemaViolation {
                                    instance_path: String::new(),
                                    schema_path: String::from_str("module document"),
                                    message: String::from_str(
                                        "Found another Containerfile start line before finishing the previous one",
                                    ),
                                },
                            );
                        },
                    }
                },
            }
        } else if text::str_eq(line.as_str(), "```") {
            match cap {
                Capture::Idle => {},
                Capture::Containerfile => {
                    container = Option::Some(buf);
                    buf = String::new();
                    cap = Capture::Idle;
                },
                Capture::Config => {
                    config = Option::Some(buf);
                    buf = String::new();
                    cap = Capture::Idle;
                },
            }
        } else {
            match cap {
                Capture::Idle => {},
                _ => {
                    buf.append(line.as_str());
                    buf.append("\n");
                },
            }
        }
        proof {
            let st2 = ParseSt {
                cap: cap,
                buf: buf@,
                container: opt_view(container),
                config: opt_view(config),
            };
            assert(module_step(st, slines[i as int]) == Result::<ParseSt, Seq<char>>::Ok(st2));
        }
        i = i + 1;
    }
    if !matches!(cap, Capture::Idle) {
        return Result::Err(
            BuildError::SchemaViolation {
                instance_path: String::new(),
                schema_path: String::from_str("module document"),
                message: String::from_str(
                    "A section is not closed before the end of the module file",
                ),
            },
        );
    }
    match (container, config) {
        (Option::None, Option::None) => Result::Err(
            BuildError::SchemaViolation {
                instance_path: String::new(),
                schema_path: String::from_str("module document"),
                message: String::from_str(
                    "Could not find containerfile or config in the module file",
                ),
            },
        ),
        (Option::None, Option::Some(_)) => Result::Err(
            BuildError::SchemaViolation {
                instance_path: String::new(),
                schema_path: String::from_str("module document"),
                message: String::from_str(
                    "Found config in the module file, but no containerfile data",
                ),
            },
        ),
        (Option::Some(c), Option::None) => Result::Ok(
            ModuleData { containerfile: c, config: String::new() },
        ),
        (Option::Some(c), Option::Some(g)) => Result::Ok(ModuleData { containerfile: c, config: g }),
    }
}

} // verus!
