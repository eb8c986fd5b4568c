//! The rendering pipeline: markdown to HTML, code blocks highlighted, then
//! inline math, then display math. Each pass rewrites the text of the pass
//! before it; a fragment that cannot be rendered stays as it was.

use crate::pattern::{
    group, group_text, pattern_captures, pattern_compiles, pattern_gaps, weave, weave_texts, whole,
    whole_text, whole_texts, Pattern,
};
use katex::{Opts, OutputType};
use syntect::highlighting::ThemeSet;
use syntect::parsing::SyntaxSet;
use vstd::prelude::*;

verus! {

#[verifier::external_type_specification]
#[verifier::external_body]
pub struct ExSyntaxSet(SyntaxSet);

#[verifier::external_type_specification]
#[verifier::external_body]
pub struct ExThemeSet(ThemeSet);

#[verifier::external_type_specification]
#[verifier::external_body]
pub struct ExOpts(Opts);

/// A code block with a language tag, as the markdown pass writes it: group 1
/// is the language, group 2 the escaped source, which may span lines.
pub const CODE_BLOCK_PATTERN: &'static str = "(?s)<pre><code class=\"language-([^\"]+)\">(.*?)</code></pre>";

/// The theme that code is highlighted with.
pub const THEME: &'static str = "base16-ocean.dark";

/// A span between single dollar signs; group 1 is the formula.
pub const INLINE_MATH_PATTERN: &'static str = "\\$([^\\$]+?)\\$";

/// A span between double dollar signs; group 1 is the formula.
pub const DISPLAY_MATH_PATTERN: &'static str = "\\$\\$([^\\$]+?)\\$\\$";

/// The HTML that `markdown` writes for a body with its GitHub-flavoured
/// options.
pub uninterp spec fn markdown_html(body: Seq<char>) -> Seq<char>;

/// `text` with its HTML entities decoded by `html_escape`.
pub uninterp spec fn decoded_entities(text: Seq<char>) -> Seq<char>;

/// The HTML that `syntect` writes for `source` with its default syntaxes
/// and the named one of its default themes; `None` where there is no such
/// theme, no syntax answers to `language`, or highlighting fails.
pub uninterp spec fn highlighted_html(
    theme: Seq<char>,
    language: Seq<char>,
    source: Seq<char>,
) -> Option<Seq<char>>;

/// The HTML that `katex` writes for a formula in the given mode; `None`
/// where it rejects the formula.
pub uninterp spec fn math_html(formula: Seq<char>, display: bool) -> Option<Seq<char>>;

/// `markdown::to_html_with_options` with `Options::gfm()`, its error
/// dropped. Trusted: the call succeeds, since markdown without MDX has no
/// syntax errors, and the result is what [`markdown_html`] names.
#[verifier::external_body]
pub(crate) fn markdown_to_html(body: &str) -> (r: Option<String>)
    ensures
        r.deep_view() == Some(markdown_html(body@)),
{
    markdown::to_html_with_options(body, &markdown::Options::gfm()).ok()
}

/// `html_escape::decode_html_entities`. Trusted: the result is what
/// [`decoded_entities`] names.
#[verifier::external_body]
pub(crate) fn decode_entities(text: &str) -> (r: String)
    ensures
        r@ == decoded_entities(text@),
{
    html_escape::decode_html_entities(text).into_owned()
}

/// Whether a set of syntaxes was compiled for lines that keep their
/// newline at the end, as `syntect` asks of the set that it highlights a
/// text with.
pub uninterp spec fn keeps_newlines(syntaxes: SyntaxSet) -> bool;

/// The names of the themes that a set of themes holds: the keys of its map.
pub uninterp spec fn theme_names(themes: ThemeSet) -> Set<Seq<char>>;

/// The highlighting resources: a fixed set of syntaxes and a fixed set of
/// themes, loaded once and never changed.
pub struct Highlighter {
    syntaxes: SyntaxSet,
    themes: ThemeSet,
}

/// `SyntaxSet::find_syntax_by_token` for the language, the theme looked up
/// by name in the theme set, then
/// `syntect::html::highlighted_html_for_string`, which wants syntaxes that
/// keep newlines. Trusted: the result is what [`highlighted_html`] names.
/// It depends on the three texts alone because a `Highlighter` only ever
/// holds the shipped defaults.
#[verifier::external_body]
fn highlight(highlighter: &Highlighter, theme: &str, language: &str, source: &str) -> (r: Option<
    String,
>)
    requires
        keeps_newlines(highlighter.syntaxes),
        theme_names(highlighter.themes).contains(theme@),
    ensures
        r.deep_view() == highlighted_html(theme@, language@, source@),
{
    let syntax = highlighter.syntaxes.find_syntax_by_token(language)?;
    let theme = highlighter.themes.themes.get(theme)?;
    syntect::html::highlighted_html_for_string(source, &highlighter.syntaxes, syntax, theme).ok()
}

/// Options for rendering math, in inline or in display mode.
pub struct MathOptions {
    display: bool,
    options: Opts,
}

/// `Opts::builder()` with the display mode set and HTML output chosen, then
/// `build`, its error dropped. Trusted: options come back, since the
/// builder has a default for every field.
#[verifier::external_body]
fn build_options(display: bool) -> (r: Option<Opts>)
    ensures
        r.is_some(),
{
    Opts::builder().display_mode(display).output_type(OutputType::Html).build().ok()
}

/// `katex::render_with_opts`, its error dropped. Trusted: the result is
/// what [`math_html`] names for the formula and the mode that the options
/// were built for.
#[verifier::external_body]
fn render_math(formula: &str, options: &MathOptions) -> (r: Option<String>)
    ensures
        r.deep_view() == math_html(formula@, options.display),
{
    katex::render_with_opts(formula, &options.options).ok()
}

/// The highlighted source of a matched code block: group 1 is its
/// language, group 2 its escaped source. `None` where a group is missing,
/// the language is not known or highlighting fails.
pub open spec fn block_highlighting(found: Seq<Option<Seq<char>>>) -> Option<Seq<char>> {
    match (group_text(found, 1), group_text(found, 2)) {
        (Some(language), Some(code)) => highlighted_html(THEME@, language, decoded_entities(code)),
        _ => None,
    }
}

/// What a matched code block becomes, given its highlighted source: that
/// source inside the tags of a block of its language, or the block itself
/// where there is none.
pub open spec fn code_block_with(
    found: Seq<Option<Seq<char>>>,
    highlighted: Option<Seq<char>>,
) -> Seq<char> {
    match (group_text(found, 1), highlighted) {
        (Some(language), Some(html)) => "<pre><code class=\"language-"@ + language + "\">"@
            + html + "</code></pre>"@,
        _ => whole_text(found),
    }
}

/// What a matched code block becomes: highlighted where the language is
/// known and highlighting succeeds, itself otherwise.
pub open spec fn code_block_html(found: Seq<Option<Seq<char>>>) -> Seq<char> {
    code_block_with(found, block_highlighting(found))
}

/// The rendered formula of a matched span: group 1 is the formula. `None`
/// where the group is missing or the formula is rejected.
pub open spec fn span_rendering(found: Seq<Option<Seq<char>>>, display: bool) -> Option<
    Seq<char>,
> {
    match group_text(found, 1) {
        Some(formula) => math_html(formula, display),
        None => None,
    }
}

/// What a matched inline span becomes, given its rendered formula: that
/// formula, or the span itself where there is none.
pub open spec fn inline_span_with(
    found: Seq<Option<Seq<char>>>,
    rendered: Option<Seq<char>>,
) -> Seq<char> {
    match rendered {
        Some(html) => html,
        None => whole_text(found),
    }
}

/// What a matched display span becomes, given its rendered formula: that
/// formula in a block container, or the span itself where there is none.
pub open spec fn display_span_with(
    found: Seq<Option<Seq<char>>>,
    rendered: Option<Seq<char>>,
) -> Seq<char> {
    match rendered {
        Some(html) => "<div class=\"math-display\">"@ + html + "</div>"@,
        None => whole_text(found),
    }
}

/// What a matched inline span becomes: the rendered formula, or itself
/// where the formula is rejected.
pub open spec fn inline_span_html(found: Seq<Option<Seq<char>>>, display: bool) -> Seq<char> {
    inline_span_with(found, span_rendering(found, display))
}

/// What a matched display span becomes: the rendered formula in a block
/// container, or itself where the formula is rejected.
pub open spec fn display_span_html(found: Seq<Option<Seq<char>>>, display: bool) -> Seq<char> {
    display_span_with(found, span_rendering(found, display))
}

/// The HTML with every tagged code block replaced by [`code_block_html`];
/// `None` where the pattern does not compile.
pub open spec fn highlighted_blocks(html: Seq<char>) -> Option<Seq<char>> {
    if pattern_compiles(CODE_BLOCK_PATTERN@) {
        let found = pattern_captures(CODE_BLOCK_PATTERN@, html);
        Some(
            weave(
                pattern_gaps(CODE_BLOCK_PATTERN@, html),
                Seq::new(found.len(), |i: int| code_block_html(found[i])),
            ),
        )
    } else {
        None
    }
}

/// The text with every single-dollar span replaced by
/// [`inline_span_html`]; the text itself where the pattern does not compile.
pub open spec fn inline_math(content: Seq<char>, display: bool) -> Seq<char> {
    if pattern_compiles(INLINE_MATH_PATTERN@) {
        let found = pattern_captures(INLINE_MATH_PATTERN@, content);
        weave(
            pattern_gaps(INLINE_MATH_PATTERN@, content),
            Seq::new(found.len(), |i: int| inline_span_html(found[i], display)),
        )
    } else {
        content
    }
}

/// The text with every double-dollar span replaced by
/// [`display_span_html`]; the text itself where the pattern does not compile.
pub open spec fn display_math(content: Seq<char>, display: bool) -> Seq<char> {
    if pattern_compiles(DISPLAY_MATH_PATTERN@) {
        let found = pattern_captures(DISPLAY_MATH_PATTERN@, content);
        weave(
            pattern_gaps(DISPLAY_MATH_PATTERN@, content),
            Seq::new(found.len(), |i: int| display_span_html(found[i], display)),
        )
    } else {
        content
    }
}

/// Whether the code block pass leaves every block of `html` as it is: there
/// is none, or none can be highlighted.
pub open spec fn blocks_kept(html: Seq<char>) -> bool {
    let found = pattern_captures(CODE_BLOCK_PATTERN@, html);
    forall|i: int| 0 <= i < found.len() ==> code_block_html(#[trigger] found[i]) == whole_text(found[i])
}

/// Whether the inline math pass leaves every span of `content` as it is:
/// there is none, or every formula is rejected.
pub open spec fn inline_spans_kept(content: Seq<char>, display: bool) -> bool {
    let found = pattern_captures(INLINE_MATH_PATTERN@, content);
    forall|i: int|
        0 <= i < found.len() ==> inline_span_html(#[trigger] found[i], display) == whole_text(found[i])
}

/// Whether the display math pass leaves every span of `content` as it is:
/// there is none, or every formula is rejected.
pub open spec fn display_spans_kept(content: Seq<char>, display: bool) -> bool {
    let found = pattern_captures(DISPLAY_MATH_PATTERN@, content);
    forall|i: int|
        0 <= i < found.len() ==> display_span_html(#[trigger] found[i], display) == whole_text(found[i])
}

/// Whether no pass replaces anything in `html`: it holds no tagged code
/// block that can be highlighted and no dollar span whose formula is
/// accepted.
pub open spec fn nothing_replaced(html: Seq<char>) -> bool {
    blocks_kept(html) && inline_spans_kept(html, false) && display_spans_kept(html, true)
}

/// The rendered content of a body: markdown, code blocks, inline math in
/// inline mode, display math in display mode, in that order. `None` where
/// the code block pattern does not compile.
pub open spec fn rendered(body: Seq<char>) -> Option<Seq<char>> {
    match highlighted_blocks(markdown_html(body)) {
        Some(highlighted) => Some(display_math(inline_math(highlighted, false), true)),
        None => None,
    }
}

/// What a matched code block becomes, given its highlighted source.
pub fn code_block(found: &Vec<Option<String>>, highlighted: Option<String>) -> (r: String)
    ensures
        r@ == code_block_with(found.deep_view(), highlighted.deep_view()),
{
    match (group(found, 1), highlighted) {
        (Some(language), Some(html)) => {
            let mut out = String::from_str("<pre><code class=\"language-");
            out.append(language.as_str());
            out.append("\">");
            out.append(html.as_str());
            out.append("</code></pre>");
            out
        },
        _ => whole(found),
    }
}

/// What a matched inline span becomes, given its rendered formula.
pub fn inline_span(found: &Vec<Option<String>>, rendered: Option<String>) -> (r: String)
    ensures
        r@ == inline_span_with(found.deep_view(), rendered.deep_view()),
{
    match rendered {
        Some(html) => html,
        None => whole(found),
    }
}

/// What a matched display span becomes, given its rendered formula.
pub fn display_span(found: &Vec<Option<String>>, rendered: Option<String>) -> (r: String)
    ensures
        r@ == display_span_with(found.deep_view(), rendered.deep_view()),
{
    match rendered {
        Some(html) => {
            let mut out = String::from_str("<div class=\"math-display\">");
            out.append(html.as_str());
            out.append("</div>");
            out
        },
        None => whole(found),
    }
}

impl MathOptions {
    /// The mode these options render in: display (block) or inline.
    pub closed spec fn display_mode(&self) -> bool {
        self.display
    }

    /// Options for HTML output in the given mode. They can always be built.
    pub fn new(display: bool) -> (r: Option<MathOptions>)
        ensures
            r.is_some(),
            r matches Some(options) ==> options.display_mode() == display,
    {
        match build_options(display) {
            Some(options) => Some(MathOptions { display, options }),
            None => None,
        }
    }

    /// The rendered formula of a matched span, where it has a formula and
    /// the formula is accepted.
    pub fn render_span(&self, found: &Vec<Option<String>>) -> (r: Option<String>)
        ensures
            r.deep_view() == span_rendering(found.deep_view(), self.display_mode()),
    {
        match group(found, 1) {
            Some(formula) => render_math(formula.as_str(), self),
            None => None,
        }
    }

    /// Renders one matched inline span.
    pub fn render_inline_span(&self, found: &Vec<Option<String>>) -> (r: String)
        ensures
            r@ == inline_span_html(found.deep_view(), self.display_mode()),
    {
        inline_span(found, self.render_span(found))
    }

    /// Renders one matched display span.
    pub fn render_display_span(&self, found: &Vec<Option<String>>) -> (r: String)
        ensures
            r@ == display_span_html(found.deep_view(), self.display_mode()),
    {
        display_span(found, self.render_span(found))
    }
}

/// Replaces every single-dollar span of `content` by its rendered formula.
/// A span whose formula is rejected stays as it was; a text without a span,
/// or with rejected formulas only, comes back unchanged.
pub fn process_inline_math(content: &str, opts: &MathOptions) -> (r: String)
    ensures
        r@ == inline_math(content@, opts.display_mode()),
        inline_spans_kept(content@, opts.display_mode()) ==> r@ == content@,
{
    match Pattern::compile(INLINE_MATH_PATTERN) {
        Some(pattern) => {
            let gaps = pattern.gaps(content);
            let found = pattern.captures(content);
            let mut fills: Vec<String> = Vec::new();
            let mut i: usize = 0;
            while i < found.len()
                invariant
                    i <= found.len(),
                    fills.len() == i,
                    forall|j: int|
                        0 <= j < i ==> fills@[j]@ == inline_span_html(
                            #[trigger] found.deep_view()[j],
                            opts.display_mode(),
                        ),
                decreases found.len() - i,
            {
                let fill = opts.render_inline_span(&found[i]);
                fills.push(fill);
                i = i + 1;
            }
            assert(fills.deep_view() =~= Seq::new(
                found.deep_view().len(),
                |i: int| inline_span_html(found.deep_view()[i], opts.display_mode()),
            ));
            assert(inline_spans_kept(content@, opts.display_mode()) ==> fills.deep_view()
                =~= whole_texts(found.deep_view()));
            weave_texts(&gaps, &fills)
        },
        None => String::from_str(content),
    }
}

/// Replaces every double-dollar span of `content` by its rendered formula
/// in a block container. A span whose formula is rejected stays as it was;
/// a text without a span, or with rejected formulas only, comes back
/// unchanged.
pub fn process_display_math(content: &str, opts: &MathOptions) -> (r: String)
    ensures
        r@ == display_math(content@, opts.display_mode()),
        display_spans_kept(content@, opts.display_mode()) ==> r@ == content@,
{
    match Pattern::compile(DISPLAY_MATH_PATTERN) {
        Some(pattern) => {
            let gaps = pattern.gaps(content);
            let found = pattern.captures(content);
            let mut fills: Vec<String> = Vec::new();
            let mut i: usize = 0;
            while i < found.len()
                invariant
                    i <= found.len(),
                    fills.len() == i,
                    forall|j: int|
                        0 <= j < i ==> fills@[j]@ == display_span_html(
                            #[trigger] found.deep_view()[j],
                            opts.display_mode(),
                        ),
                decreases found.len() - i,
            {
                let fill = opts.render_display_span(&found[i]);
                fills.push(fill);
                i = i + 1;
            }
            assert(fills.deep_view() =~= Seq::new(
                found.deep_view().len(),
                |i: int| display_span_html(found.deep_view()[i], opts.display_mode()),
            ));
            assert(display_spans_kept(content@, opts.display_mode()) ==> fills.deep_view()
                =~= whole_texts(found.deep_view()));
            weave_texts(&gaps, &fills)
        },
        None => String::from_str(content),
    }
}

impl Highlighter {
    /// Loads the syntaxes and the themes that ship with `syntect`.
    pub fn new() -> (r: Highlighter)
        ensures
            r.ready(),
    {
        Highlighter { syntaxes: load_syntaxes(), themes: load_themes() }
    }

    /// Whether the highlighter can do its work: its syntaxes keep newlines
    /// and its themes hold [`THEME`]. Every highlighter is ready: this is
    /// the invariant of the type.
    #[verifier::type_invariant]
    pub closed spec fn ready(&self) -> bool {
        keeps_newlines(self.syntaxes) && theme_names(self.themes).contains(THEME@)
    }

    /// The highlighted source of a matched code block, where it has a
    /// language that is known and highlighting succeeds.
    pub fn highlight_block(&self, found: &Vec<Option<String>>) -> (r: Option<String>)
        ensures
            r.deep_view() == block_highlighting(found.deep_view()),
    {
        match (group(found, 1), group(found, 2)) {
            (Some(language), Some(code)) => {
                let source = decode_entities(code.as_str());
                proof {
                    use_type_invariant(self);
                }
                highlight(self, THEME, language.as_str(), source.as_str())
            },
            _ => None,
        }
    }

    /// Renders one matched code block: highlighted where its language is
    /// known and highlighting succeeds, unchanged otherwise.
    pub fn render_code_block(&self, found: &Vec<Option<String>>) -> (r: String)
        ensures
            r@ == code_block_html(found.deep_view()),
    {
        code_block(found, self.highlight_block(found))
    }

    /// Replaces every tagged code block of `html` by its highlighted form;
    /// `None` where the pattern does not compile. A text without a block,
    /// or with blocks only that cannot be highlighted, comes back unchanged.
    pub fn highlight_code_blocks(&self, html: &str) -> (r: Option<String>)
        ensures
            r.deep_view() == highlighted_blocks(html@),
            r.is_some() && blocks_kept(html@) ==> r.deep_view() == Some(html@),
    {
        match Pattern::compile(CODE_BLOCK_PATTERN) {
            Some(pattern) => {
                let gaps = pattern.gaps(html);
                let found = pattern.captures(html);
                let mut fills: Vec<String> = Vec::new();
                let mut i: usize = 0;
                while i < found.len()
                    invariant
                        i <= found.len(),
                        fills.len() == i,
                        forall|j: int|
                            0 <= j < i ==> fills@[j]@ == code_block_html(
                                #[trigger] found.deep_view()[j],
                            ),
                    decreases found.len() - i,
                {
                    let fill = self.render_code_block(&found[i]);
                    fills.push(fill);
                    i = i + 1;
                }
                assert(fills.deep_view() =~= Seq::new(
                    found.deep_view().len(),
                    |i: int| code_block_html(found.deep_view()[i]),
                ));
                assert(blocks_kept(html@) ==> fills.deep_view() =~= whole_texts(
                    found.deep_view(),
                ));
                Some(weave_texts(&gaps, &fills))
            },
            None => None,
        }
    }

    /// Renders a markdown body to the content of a note. It succeeds
    /// exactly where the code block pattern compiles. A body whose HTML
    /// holds nothing that a pass replaces is rendered to that HTML as it is.
    pub fn render(&self, body: &str) -> (r: Option<String>)
        ensures
            r.deep_view() == rendered(body@),
            r.is_some() == pattern_compiles(CODE_BLOCK_PATTERN@),
            r.is_some() && nothing_replaced(markdown_html(body@)) ==> r.deep_view() == Some(
                markdown_html(body@),
            ),
    {
        let html = match markdown_to_html(body) {
            Some(html) => html,
            None => {
                return None;
            },
        };
        let highlighted = match self.highlight_code_blocks(html.as_str()) {
            Some(highlighted) => highlighted,
            None => {
                return None;
            },
        };
        let inline_options = match MathOptions::new(false) {
            Some(options) => options,
            None => {
                return None;
            },
        };
        let with_inline = process_inline_math(highlighted.as_str(), &inline_options);
        let display_options = match MathOptions::new(true) {
            Some(options) => options,
            None => {
                return None;
            },
        };
        Some(process_display_math(with_inline.as_str(), &display_options))
    }
}

/// The names of the themes that `syntect` documents as shipped.
pub open spec fn documented_themes() -> Set<Seq<char>> {
    set![
        "base16-ocean.dark"@,
        "base16-eighties.dark"@,
        "base16-mocha.dark"@,
        "base16-ocean.light"@,
        "InspiredGitHub"@,
        "Solarized (dark)"@,
        "Solarized (light)"@,
    ]
}

/// `SyntaxSet::load_defaults_newlines`: the syntaxes that `syntect` ships
/// for lines that keep their newline. Trusted: that the set is of that
/// kind, as the function's documentation says.
#[verifier::external_body]
fn load_syntaxes() -> (r: SyntaxSet)
    ensures
        keeps_newlines(r),
{
    SyntaxSet::load_defaults_newlines()
}

/// `ThemeSet::load_defaults`: the themes that `syntect` ships. Trusted:
/// that the themes which its documentation lists are among them.
#[verifier::external_body]
fn load_themes() -> (r: ThemeSet)
    ensures
        documented_themes().subset_of(theme_names(r)),
{
    ThemeSet::load_defaults()
}

/// A code block whose language no syntax answers to, or whose highlighting
/// fails, is kept as it was.
pub proof fn lemma_unhighlighted_block_is_kept(found: Seq<Option<Seq<char>>>)
    requires
        block_highlighting(found).is_none(),
    ensures
        code_block_html(found) == whole_text(found),
{
}

/// A span whose formula is rejected is kept as it was, in either pass.
pub proof fn lemma_rejected_formula_is_kept(found: Seq<Option<Seq<char>>>, display: bool)
    requires
        span_rendering(found, display).is_none(),
    ensures
        inline_span_html(found, display) == whole_text(found),
        display_span_html(found, display) == whole_text(found),
{
}

/// A span whose formula is accepted becomes the rendered formula, bare in
/// the inline pass and in a block container in the display pass.
pub proof fn lemma_accepted_formula_is_rendered(found: Seq<Option<Seq<char>>>, display: bool)
    requires
        span_rendering(found, display).is_some(),
    ensures
        inline_span_html(found, display) == span_rendering(found, display).unwrap(),
        display_span_html(found, display) == "<div class=\"math-display\">"@ + span_rendering(
            found,
            display,
        ).unwrap() + "</div>"@,
{
}

/// A text in which the pattern of a pass finds nothing is a text whose
/// matches are all kept.
pub proof fn lemma_nothing_found_is_kept(text: Seq<char>, display: bool)
    ensures
        pattern_captures(CODE_BLOCK_PATTERN@, text).len() == 0 ==> blocks_kept(text),
        pattern_captures(INLINE_MATH_PATTERN@, text).len() == 0 ==> inline_spans_kept(text, display),
        pattern_captures(DISPLAY_MATH_PATTERN@, text).len() == 0 ==> display_spans_kept(
            text,
            display,
        ),
{
}

/// Rendering is a function of the body: the passes run in one fixed order,
/// each on the output of the one before, and the result is `None` exactly
/// where the code block pattern does not compile.
pub proof fn lemma_rendered_in_order(body: Seq<char>)
    ensures
        rendered(body).is_some() <==> pattern_compiles(CODE_BLOCK_PATTERN@),
        rendered(body).is_some() ==> rendered(body).unwrap() == display_math(
            inline_math(highlighted_blocks(markdown_html(body)).unwrap(), false),
            true,
        ),
{
}

} // verus!
