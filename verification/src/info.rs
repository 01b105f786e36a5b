//! Rendering of the module-metadata report that the info subcommand prints
//! after the main module loads: local path, media type, optional compiled
//! output and source map, and the dependency section.

use vstd::prelude::*;
use crate::ansi::{bold, bold_seq};

verus! {

/// The media-type tag the resolver attaches to a module.
#[derive(Clone, Copy, PartialEq, Eq, Structural, Debug)]
pub enum MediaType {
    JavaScript,
    TypeScript,
    Json,
    Unknown,
}

pub open spec fn media_type_label(m: MediaType) -> Seq<char> {
    match m {
        MediaType::JavaScript => "JavaScript"@,
        MediaType::TypeScript => "TypeScript"@,
        MediaType::Json => "Json"@,
        MediaType::Unknown => "Unknown"@,
    }
}

/// What the external resolver/compiler reports for a loaded module;
/// read-only for the core.
pub struct ModuleMetadata {
    pub filename: String,
    pub media_type: MediaType,
    pub maybe_output_code_filename: Option<String>,
    pub maybe_source_map_filename: Option<String>,
    pub module_name: String,
}

/// The module's place in the dependency graph: its own name and, when the
/// graph could be flattened, the transitive dependency names in resolver
/// order.
pub struct DepsInfo {
    pub name: String,
    pub deps: Option<Vec<String>>,
}

/// The character sequences of a sequence of strings, in order.
pub open spec fn views_of(s: Seq<String>) -> Seq<Seq<char>> {
    Seq::new(s.len(), |i: int| s[i]@)
}

/// A bold label followed by a space and plain text.
pub open spec fn labeled(label: Seq<char>, rest: Seq<char>) -> Seq<char> {
    bold_seq(label) + " "@ + rest
}

/// The lines of the dependency section: the module name under the bold
/// `deps:` heading and one line per transitive dependency, exactly in the
/// order the resolver supplied and each exactly once — or the fallback
/// diagnostic line when the graph is unavailable.
pub open spec fn deps_lines(deps: Option<DepsInfo>) -> Seq<Seq<char>> {
    match deps {
        Some(d) => seq![bold_seq("deps:\n"@) + d.name@] + (match d.deps {
            Some(list) => views_of(list@),
            None => Seq::<Seq<char>>::empty(),
        }),
        None => seq![labeled("deps:"@, "cannot retrieve full dependency graph"@)],
    }
}

/// The full report for a loaded module, line by line.
pub open spec fn metadata_lines(meta: ModuleMetadata, deps: Option<DepsInfo>) -> Seq<Seq<char>> {
    seq![
        labeled("local:"@, meta.filename@),
        labeled("type:"@, media_type_label(meta.media_type)),
    ] + (match meta.maybe_output_code_filename {
        Some(f) => seq![labeled("compiled:"@, f@)],
        None => Seq::<Seq<char>>::empty(),
    }) + (match meta.maybe_source_map_filename {
        Some(f) => seq![labeled("map:"@, f@)],
        None => Seq::<Seq<char>>::empty(),
    }) + deps_lines(deps)
}

/// What the info subcommand prints: when the metadata lookup itself failed
/// the collaborator's message is the single line printed — a soft
/// degradation, not a pipeline failure, so the exit status stays 0.
pub open spec fn info_lines(meta: Result<ModuleMetadata, String>, deps: Option<DepsInfo>) -> Seq<
    Seq<char>,
> {
    match meta {
        Ok(m) => metadata_lines(m, deps),
        Err(e) => seq![e@],
    }
}

fn labeled_line(label: &str, rest: &str) -> (line: String)
    ensures
        line@ == labeled(label@, rest@),
{
    let mut s = bold(label);
    s.append(" ");
    s.append(rest);
    s
}

proof fn lemma_views_is_deep_view(v: Vec<String>)
    ensures
        v.deep_view() == views_of(v@),
{
    assert forall|i: int| 0 <= i < v@.len() implies #[trigger] v.deep_view()[i] == views_of(v@)[i]
        by {
        assert(v.deep_view()[i] == v@[i].deep_view());
    }
    assert(v.deep_view() =~= views_of(v@));
}

/// Renders the module-metadata report as the lines written to standard
/// output, in order.
pub fn print_file_info(meta: Result<ModuleMetadata, String>, deps: Option<DepsInfo>) -> (lines: Vec<
    String,
>)
    ensures
        lines.deep_view() == info_lines(meta, deps),
{
    let mut lines: Vec<String> = Vec::new();
    let m = match meta {
        Err(e) => {
            lines.push(e);
            proof {
                lemma_views_is_deep_view(lines);
                assert(views_of(lines@) =~= info_lines(meta, deps));
            }
            return lines;
        },
        Ok(m) => m,
    };
    lines.push(labeled_line("local:", m.filename.as_str()));
    let media_name = match m.media_type {
        MediaType::JavaScript => "JavaScript",
        MediaType::TypeScript => "TypeScript",
        MediaType::Json => "Json",
        MediaType::Unknown => "Unknown",
    };
    lines.push(labeled_line("type:", media_name));
    match &m.maybe_output_code_filename {
        Some(f) => {
            lines.push(labeled_line("compiled:", f.as_str()));
        },
        None => {},
    }
    match &m.maybe_source_map_filename {
        Some(f) => {
            lines.push(labeled_line("map:", f.as_str()));
        },
        None => {},
    }
    match &deps {
        Some(d) => {
            let mut heading = bold("deps:\n");
            heading.append(d.name.as_str());
            lines.push(heading);
            let ghost lines_before = views_of(lines@);
            match &d.deps {
                Some(list) => {
                    let mut i: usize = 0;
                    while i < list.len()
                        invariant
                            i <= list.len(),
                            views_of(lines@) =~= lines_before + views_of(list@).take(i as int),
                        decreases list.len() - i,
                    {
                        let ghost pre = lines@;
                        lines.push(list[i].clone());
                        proof {
                            assert(lines@ == pre.push(list@[i as int]));
                            assert(views_of(lines@) =~= views_of(pre).push(list@[i as int]@));
                            assert(views_of(list@).take(i + 1) =~= views_of(list@).take(
                                i as int,
                            ).push(list@[i as int]@));
                        }
                        i = i + 1;
                    }
                    proof {
                        assert(views_of(list@).take(list.len() as int) =~= views_of(list@));
                    }
                },
                None => {},
            }
        },
        None => {
            lines.push(labeled_line("deps:", "cannot retrieve full dependency graph"));
        },
    }
    proof {
        lemma_views_is_deep_view(lines);
        assert(views_of(lines@) =~= info_lines(meta, deps));
    }
    lines
}

} // verus!
