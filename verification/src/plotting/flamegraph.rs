//! Flame-graph pages: one SVG per series and point, drawn by `flamegraph.pl`
//! and embedded into an HTML page.

use vstd::prelude::*;

use crate::command::{Command, CommandView, strings_view};
use crate::config::benchmark::BenchmarkPoint;
use crate::number::{decimal, u64_to_string};
use crate::plotting::{PlotError, IMAGE_WIDTH};
use crate::command::opt_view;
use crate::text::{owned, path_join, path_join_spec, push_str, replace_all, replace_spec};

verus! {

/// The title that `flamegraph.pl` gives every graph.
pub const FLAME_GRAPH_TITLE: &'static str = ">Flame Graph<";

/// The entity that `html_escape::encode_safe` writes for a character.
pub open spec fn escape_safe_char(c: char) -> Seq<char> {
    if c == '&' {
        "&amp;"@
    } else if c == '<' {
        "&lt;"@
    } else if c == '>' {
        "&gt;"@
    } else if c == '"' {
        "&quot;"@
    } else if c == '\'' {
        "&#x27;"@
    } else if c == '/' {
        "&#x2F;"@
    } else {
        seq![c]
    }
}

/// `s` with `&`, `<`, `>`, `"`, `'` and `/` written as HTML entities.
pub open spec fn html_safe(s: Seq<char>) -> Seq<char>
    decreases s.len(),
{
    if s.len() == 0 {
        Seq::empty()
    } else {
        html_safe(s.drop_last()) + escape_safe_char(s.last())
    }
}

/// Calls `html_escape::encode_safe`, which writes `&`, `<`, `>`, `"`, `'`
/// and `/` as `&amp;`, `&lt;`, `&gt;`, `&quot;`, `&#x27;` and `&#x2F;` and
/// keeps every other character, as the crate documents and its source does.
#[verifier::external_body]
fn encode_html_safe(text: &str) -> (r: String)
    ensures
        r@ == html_safe(text@),
{
    html_escape::encode_safe(text).into_owned()
}

/// The file a flame graph of one series at one point is kept in, in the
/// artifacts directory: `<benchmark>_<series>_<point>.svg`.
pub fn artifact_path(dir: &str, benchmark: &str, series: &str, point: BenchmarkPoint) -> (r: String)
    ensures
        r@ == path_join_spec(dir@, benchmark@ + "_"@ + series@ + "_"@ + decimal(point as nat) + ".svg"@),
{
    let mut name = owned(benchmark);
    push_str(&mut name, "_");
    push_str(&mut name, series);
    push_str(&mut name, "_");
    push_str(&mut name, u64_to_string(point).as_str());
    push_str(&mut name, ".svg");
    path_join(dir, name.as_str())
}

/// The command drawing a flame graph from folded stacks on its input:
/// `flamegraph.pl` of the flame-graph repository, as wide as a chart.
pub fn flamegraph_command(flame_repo: &str) -> (r: Command)
    ensures
        r@ == (CommandView {
            program: path_join_spec(flame_repo@, "flamegraph.pl"@),
            arguments: seq!["--width"@, decimal(IMAGE_WIDTH as nat)],
            cwd: None,
            envs: Seq::empty(),
        }),
{
    let mut args: Vec<String> = Vec::new();
    args.push(owned("--width"));
    args.push(u64_to_string(IMAGE_WIDTH as u64));
    let r = Command::new_args(path_join(flame_repo, "flamegraph.pl"), args);
    assert(strings_view(args@) =~= seq!["--width"@, decimal(IMAGE_WIDTH as nat)]);
    assert(r@.envs =~= Seq::<(Seq<char>, Seq<char>)>::empty());
    r
}

/// The error of a `flamegraph.pl` run that failed for a series at a point.
pub fn flamegraph_failure(series: &str, point: BenchmarkPoint) -> (r: PlotError)
    ensures
        r matches PlotError::Internal(m) && m@ == "flamegraph.pl failed on "@ + series@ + " data point "@ + decimal(
            point as nat,
        ),
{
    let mut m = owned("flamegraph.pl failed on ");
    push_str(&mut m, series);
    push_str(&mut m, " data point ");
    push_str(&mut m, u64_to_string(point).as_str());
    PlotError::Internal(m)
}

/// A drawn flame graph titled with its series and point: every `>Flame
/// Graph<` becomes `><series> at <point><`.
pub fn titled_flamegraph(svg: &str, series: &str, point: BenchmarkPoint) -> (r: String)
    ensures
        r@ == replace_spec(svg@, ">Flame Graph<"@, ">"@ + series@ + " at "@ + decimal(point as nat) + "<"@),
{
    proof {
        reveal_strlit(">Flame Graph<");
    }
    let mut title = owned(">");
    push_str(&mut title, series);
    push_str(&mut title, " at ");
    push_str(&mut title, u64_to_string(point).as_str());
    push_str(&mut title, "<");
    replace_all(svg, FLAME_GRAPH_TITLE, title.as_str())
}

/// The start of the page of a scenario's flame graphs.
pub fn flame_page_header(benchmark: &str) -> (r: String)
    ensures
        r@ == "<!DOCTYPE html>\n<html>\n<head>\n  <meta charset=\"utf-8\">\n  <title>Benchmark "@ + benchmark@
            + " results</title>\n</head>\n<body style=\"margin:0\">\n\t<h1>Benchmark "@ + benchmark@
            + " results</h1>"@,
{
    let mut r = owned("<!DOCTYPE html>\n<html>\n<head>\n  <meta charset=\"utf-8\">\n  <title>Benchmark ");
    push_str(&mut r, benchmark);
    push_str(&mut r, " results</title>\n</head>\n<body style=\"margin:0\">\n\t<h1>Benchmark ");
    push_str(&mut r, benchmark);
    push_str(&mut r, " results</h1>");
    r
}

/// The end of the page of a scenario's flame graphs.
pub fn flame_page_footer() -> (r: &'static str)
    ensures
        r@ == "</body></html>"@,
{
    "</body></html>"
}

/// The size attributes of the root element of a drawn flame graph: the
/// `version` attribute, then the width and the height.
pub const SVG_SIZE_PATTERN: &'static str = r#"<svg\s+(version="[^"]+")\s+width="([^"]+)"\s+height="([^"]+)""#;

/// The first match of a regular expression in a text, as plain values: the
/// text before the match, the capture groups (group 0 is the whole match; a
/// group that took no part in it is `None`), and the text after the match.
pub type RegexMatch = (String, Vec<Option<String>>, String);

/// What `regex` finds of `pattern` in `text`: `None` when `pattern` is not a
/// valid regular expression, `Some(None)` when it does not occur, and
/// otherwise its first match (text before, capture groups, text after).
pub uninterp spec fn regex_first_match(pattern: Seq<char>, text: Seq<char>) -> Option<Option<(Seq<char>, Seq<Option<Seq<char>>>, Seq<char>)>>;

/// The capture groups of a match, as characters.
pub open spec fn groups_view(g: Seq<Option<String>>) -> Seq<Option<Seq<char>>> {
    g.map_values(|o: Option<String>| opt_view(o))
}

/// The abstract value of what a regular-expression search found.
pub open spec fn found_view(f: Option<Option<RegexMatch>>) -> Option<Option<(Seq<char>, Seq<Option<Seq<char>>>, Seq<char>)>> {
    match f {
        None => None,
        Some(None) => Some(None),
        Some(Some((b, g, a))) => Some(Some((b@, groups_view(g@), a@))),
    }
}

/// Calls `regex::Regex::new` on `pattern`, then `Regex::captures` on `text`,
/// and hands the first match back as the text before it, its capture groups
/// and the text after it. What the search finds is named by
/// `regex_first_match`: the contract claims that it is a function of the
/// pattern and the text alone.
#[verifier::external_body]
fn first_match(pattern: &str, text: &str) -> (r: Option<Option<RegexMatch>>)
    ensures
        found_view(r) == regex_first_match(pattern@, text@),
{
    let Ok(re) = regex::Regex::new(pattern) else { return None };
    Some(re.captures(text).map(|c| {
        let whole = c.get(0).expect("group 0 is the whole match");
        let groups = c.iter().map(|g| g.map(|m| m.as_str().to_owned())).collect();
        (text[..whole.start()].to_owned(), groups, text[whole.end()..].to_owned())
    }))
}

/// The error of a drawn flame graph whose size attributes were not found.
pub open spec fn no_size_message() -> Seq<char> {
    "Regex match failed in generated svg"@
}

/// Whether a match holds the three groups of `SVG_SIZE_PATTERN`, with a
/// width and a height that are not empty.
pub open spec fn size_groups_found(g: Seq<Option<Seq<char>>>) -> bool {
    &&& g.len() >= 4
    &&& g[1] is Some
    &&& g[2] is Some && g[2]->0.len() > 0
    &&& g[3] is Some && g[3]->0.len() > 0
}

/// The drawing sized to fill its frame, with the width and height it had,
/// from what the search for `SVG_SIZE_PATTERN` found: the matched attributes
/// become `<svg <version> width="100%" height="100%"` and the rest of the
/// text is kept. An invalid pattern, no match, or a match without a width or
/// height is an error, with its message.
pub open spec fn svg_rewrite(found: Option<Option<(Seq<char>, Seq<Option<Seq<char>>>, Seq<char>)>>) -> Result<(Seq<char>, Seq<char>, Seq<char>), Seq<char>> {
    match found {
        None => Err("Regex creation failed"@),
        Some(None) => Err(no_size_message()),
        Some(Some((before, g, after))) => if size_groups_found(g) {
            Ok((before + "<svg "@ + g[1]->0 + " width=\"100%\" height=\"100%\""@ + after, g[2]->0, g[3]->0))
        } else {
            Err(no_size_message())
        },
    }
}

/// The abstract value of a rewritten drawing, or of the error in its place.
pub open spec fn rewrite_view(r: Result<(String, String, String), PlotError>) -> Result<(Seq<char>, Seq<char>, Seq<char>), Seq<char>> {
    match r {
        Ok((s, w, h)) => Ok((s@, w@, h@)),
        Err(PlotError::Internal(m)) => Err(m@),
        Err(_) => Err(Seq::empty()),
    }
}

/// The drawing sized to fill its frame, from what the search for its size
/// attributes found (see `svg_rewrite`).
pub fn rewrite_svg_size(found: Option<Option<RegexMatch>>) -> (r: Result<(String, String, String), PlotError>)
    ensures
        r is Ok || r is Err && r->Err_0 is Internal,
        rewrite_view(r) == svg_rewrite(found_view(found)),
{
    proof {
        reveal_strlit("Regex match failed in generated svg");
    }
    match found {
        None => Err(PlotError::Internal(owned("Regex creation failed"))),
        Some(None) => Err(PlotError::Internal(owned("Regex match failed in generated svg"))),
        Some(Some((before, groups, after))) => {
            let ghost g = groups_view(groups@);
            if groups.len() < 4 {
                return Err(PlotError::Internal(owned("Regex match failed in generated svg")));
            }
            assert(g[1] == opt_view(groups@[1]));
            assert(g[2] == opt_view(groups@[2]));
            assert(g[3] == opt_view(groups@[3]));
            match (&groups[1], &groups[2], &groups[3]) {
                (Some(version), Some(width), Some(height)) => {
                    if width.as_str().unicode_len() == 0 || height.as_str().unicode_len() == 0 {
                        return Err(PlotError::Internal(owned("Regex match failed in generated svg")));
                    }
                    let mut s = before;
                    push_str(&mut s, "<svg ");
                    push_str(&mut s, version.as_str());
                    push_str(&mut s, " width=\"100%\" height=\"100%\"");
                    push_str(&mut s, after.as_str());
                    Ok((s, width.clone(), height.clone()))
                },
                _ => Err(PlotError::Internal(owned("Regex match failed in generated svg"))),
            }
        },
    }
}

/// The first flame-graph drawing's size attributes rewritten to fill its
/// frame, with the width and height they had (see `svg_rewrite`).
pub fn relative_size_svg(svg: &str) -> (r: Result<(String, String, String), PlotError>)
    ensures
        r is Ok || r is Err && r->Err_0 is Internal,
        rewrite_view(r) == svg_rewrite(regex_first_match(SVG_SIZE_PATTERN@, svg@)),
{
    rewrite_svg_size(first_match(SVG_SIZE_PATTERN, svg))
}

/// The frame embedding a drawn flame graph into the page, keeping its aspect
/// ratio, from the drawing rewritten to fill it; or the rewrite's error.
pub open spec fn flame_iframe_spec(rewritten: Result<(Seq<char>, Seq<char>, Seq<char>), Seq<char>>) -> Result<Seq<char>, Seq<char>> {
    match rewritten {
        Err(m) => Err(m),
        Ok((s, w, h)) => Ok(
            "<iframe srcdoc='&lt;!DOCTYPE html&gt;&lt;html&gt;&lt;body&gt;"@ + html_safe(s)
                + "&lt;&#47;body&gt;&lt;&#47;html&gt;'\n                style=\"width:100%; aspect-ratio:"@
                + w + "/"@ + h + "; border:none\"></iframe>"@,
        ),
    }
}

/// The frame embedding a drawn flame graph into the page (see
/// `flame_iframe_spec`); a drawing whose size attributes are not found is an
/// error.
pub fn flame_iframe(svg: &str) -> (r: Result<String, PlotError>)
    ensures
        match flame_iframe_spec(svg_rewrite(regex_first_match(SVG_SIZE_PATTERN@, svg@))) {
            Ok(t) => r matches Ok(x) && x@ == t,
            Err(m) => r matches Err(PlotError::Internal(x)) && x@ == m,
        },
{
    match relative_size_svg(svg) {
        Err(e) => Err(e),
        Ok((s, w, h)) => {
            let escaped = encode_html_safe(s.as_str());
            let mut r = owned("<iframe srcdoc='&lt;!DOCTYPE html&gt;&lt;html&gt;&lt;body&gt;");
            push_str(&mut r, escaped.as_str());
            push_str(&mut r, "&lt;&#47;body&gt;&lt;&#47;html&gt;'\n                style=\"width:100%; aspect-ratio:");
            push_str(&mut r, w.as_str());
            push_str(&mut r, "/");
            push_str(&mut r, h.as_str());
            push_str(&mut r, "; border:none\"></iframe>");
            Ok(r)
        },
    }
}

} // verus!
