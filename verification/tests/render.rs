use miniref::pattern::{group, weave_texts, whole, Pattern};
use miniref::render::{
    code_block, display_span, inline_span, process_display_math, process_inline_math, Highlighter,
    MathOptions, THEME,
};

const X_INLINE: &str = "<span class=\"katex\"><span class=\"katex-html\" aria-hidden=\"true\"><span class=\"base\"><span class=\"strut\" style=\"height:0.4306em;\"></span><span class=\"mord mathnormal\">x</span></span></span></span>";

const X_DISPLAY: &str = "<span class=\"katex-display\"><span class=\"katex\"><span class=\"katex-html\" aria-hidden=\"true\"><span class=\"base\"><span class=\"strut\" style=\"height:0.4306em;\"></span><span class=\"mord mathnormal\">x</span></span></span></span></span>";

const LET_HIGHLIGHTED: &str = "<pre><code class=\"language-rust\"><pre style=\"background-color:#2b303b;\">\n<span style=\"color:#b48ead;\">let</span><span style=\"color:#c0c5ce;\"> a = </span><span style=\"color:#d08770;\">1</span><span style=\"color:#c0c5ce;\">;\n</span></pre>\n</code></pre>";

fn texts(items: &[&str]) -> Vec<String> {
    items.iter().map(|item| item.to_string()).collect()
}

#[test]
fn weave_puts_fills_between_gaps() {
    assert_eq!(weave_texts(&texts(&["a", "c", "e"]), &texts(&["b", "d"])), "abcde");
    assert_eq!(weave_texts(&texts(&["only"]), &Vec::new()), "only");
    assert_eq!(weave_texts(&texts(&["", ""]), &texts(&["x"])), "x");
}

#[test]
fn weave_of_uneven_lists_stops_at_the_shorter() {
    assert_eq!(weave_texts(&Vec::new(), &texts(&["x"])), "");
    assert_eq!(weave_texts(&texts(&["a", "c", "e"]), &texts(&["b"])), "abc");
    assert_eq!(weave_texts(&texts(&["a", "c"]), &texts(&["b", "d", "f"])), "abc");
}

#[test]
fn a_pattern_that_does_not_compile_gives_none() {
    assert!(Pattern::compile("foo(bar").is_none());
    assert!(Pattern::compile("foo(bar)").is_some());
}

#[test]
fn gaps_and_captures_of_a_pattern() {
    let pattern = Pattern::compile("(a+)(b)?").unwrap();
    assert_eq!(pattern.gaps("xaayabz"), texts(&["x", "y", "z"]));
    assert_eq!(
        pattern.captures("xaayabz"),
        vec![
            vec![Some("aa".to_string()), Some("aa".to_string()), None],
            vec![Some("ab".to_string()), Some("a".to_string()), Some("b".to_string())],
        ]
    );
    assert_eq!(pattern.gaps("none"), texts(&["none"]));
    assert!(pattern.captures("none").is_empty());
    assert_eq!(pattern.gaps("aa"), texts(&["", ""]));
}

#[test]
fn groups_of_a_match() {
    let found = vec![Some("$x$".to_string()), Some("x".to_string()), None];
    assert_eq!(group(&found, 0), Some(&"$x$".to_string()));
    assert_eq!(group(&found, 1), Some(&"x".to_string()));
    assert_eq!(group(&found, 2), None);
    assert_eq!(group(&found, 3), None);
    assert_eq!(whole(&found), "$x$");
    assert_eq!(whole(&Vec::new()), "");
}

#[test]
fn markdown_becomes_html() {
    let highlighter = Highlighter::new();
    assert_eq!(highlighter.render("# Hi"), Some("<h1>Hi</h1>".to_string()));
    assert_eq!(highlighter.render("# Hi\n"), Some("<h1>Hi</h1>\n".to_string()));
    assert_eq!(highlighter.render(""), Some(String::new()));
}

#[test]
fn markdown_is_github_flavoured() {
    let highlighter = Highlighter::new();
    assert_eq!(
        highlighter.render("~Venus~Mars!"),
        Some("<p><del>Venus</del>Mars!</p>".to_string())
    );
    let table = highlighter.render("| a |\n| - |\n| b |\n").unwrap();
    assert!(table.starts_with("<table>"));
    let tasks = highlighter.render("* [x] done\n").unwrap();
    assert!(tasks.contains("type=\"checkbox\""));
}

#[test]
fn shipped_themes_hold_the_documented_ones() {
    let themes = syntect::highlighting::ThemeSet::load_defaults().themes;
    for name in [
        "base16-ocean.dark",
        "base16-eighties.dark",
        "base16-mocha.dark",
        "base16-ocean.light",
        "InspiredGitHub",
        "Solarized (dark)",
        "Solarized (light)",
    ] {
        assert!(themes.contains_key(name), "{}", name);
    }
    assert!(themes.contains_key(THEME));
    assert_eq!(THEME, "base16-ocean.dark");
}

#[test]
fn a_new_highlighter_highlights_lines_that_keep_their_newline() {
    let highlighter = Highlighter::new();
    let block = "<pre><code class=\"language-rust\">let a = 1;\nlet b = 2;\n</code></pre>";
    let out = highlighter.highlight_code_blocks(block).unwrap();
    assert!(out.contains("<pre style=\"background-color:#2b303b;\">"));
    assert!(out.contains("<span style=\"color:#d08770;\">1</span>"));
    assert!(out.contains("<span style=\"color:#d08770;\">2</span>"));
}

#[test]
fn known_language_is_highlighted() {
    let highlighter = Highlighter::new();
    let html = highlighter.render("```rust\nlet a = 1;\n```\n").unwrap();
    assert_eq!(html, format!("{}\n", LET_HIGHLIGHTED));
}

#[test]
fn code_block_pass_keeps_what_lies_around_the_blocks() {
    let highlighter = Highlighter::new();
    let html = "<p>before</p><pre><code class=\"language-rust\">let a = 1;\n</code></pre><p>after</p>";
    assert_eq!(
        highlighter.highlight_code_blocks(html),
        Some(format!("<p>before</p>{}<p>after</p>", LET_HIGHLIGHTED))
    );
    assert_eq!(
        highlighter.highlight_code_blocks("<p>no code</p>"),
        Some("<p>no code</p>".to_string())
    );
}

#[test]
fn escaped_source_is_decoded_before_highlighting() {
    let highlighter = Highlighter::new();
    let html = "<pre><code class=\"language-rust\">a &lt; b\n</code></pre>";
    let out = highlighter.highlight_code_blocks(html).unwrap();
    assert!(out.contains("&lt;"));
    assert!(!out.contains("&amp;lt;"));
}

#[test]
fn unknown_language_passes_through() {
    let highlighter = Highlighter::new();
    let html = highlighter.render("```no-such-language\ncode <here>\n```\n").unwrap();
    assert_eq!(
        html,
        "<pre><code class=\"language-no-such-language\">code &lt;here&gt;\n</code></pre>\n"
    );
}

#[test]
fn render_code_block_of_unknown_language_is_the_block_itself() {
    let highlighter = Highlighter::new();
    let block = "<pre><code class=\"language-zzz\">x</code></pre>".to_string();
    let found = vec![Some(block.clone()), Some("zzz".to_string()), Some("x".to_string())];
    assert_eq!(highlighter.render_code_block(&found), block);
    let short = vec![Some(block.clone())];
    assert_eq!(highlighter.render_code_block(&short), block);
}

#[test]
fn inline_math_is_rendered() {
    let options = MathOptions::new(false).unwrap();
    assert_eq!(process_inline_math("a $x$ b", &options), format!("a {} b", X_INLINE));
    assert_eq!(process_inline_math("no math", &options), "no math");
    assert_eq!(process_inline_math("", &options), "");
}

#[test]
fn invalid_inline_math_stays_literal() {
    let options = MathOptions::new(false).unwrap();
    assert_eq!(
        process_inline_math("a $x$ b $\\frac{$ c", &options),
        format!("a {} b $\\frac{{$ c", X_INLINE)
    );
}

#[test]
fn unterminated_dollar_stays_literal() {
    let highlighter = Highlighter::new();
    assert_eq!(
        highlighter.render("costs $5 and more"),
        Some("<p>costs $5 and more</p>".to_string())
    );
    let options = MathOptions::new(false).unwrap();
    assert_eq!(process_inline_math("open $x", &options), "open $x");
}

#[test]
fn display_math_is_wrapped_in_a_block() {
    let options = MathOptions::new(true).unwrap();
    assert_eq!(
        process_display_math("a $$x$$ b", &options),
        format!("a <div class=\"math-display\">{}</div> b", X_DISPLAY)
    );
    assert_eq!(process_display_math("a $x$ b", &options), "a $x$ b");
}

#[test]
fn invalid_display_math_stays_literal() {
    let options = MathOptions::new(true).unwrap();
    assert_eq!(process_display_math("a $$\\frac{$$ b", &options), "a $$\\frac{$$ b");
}

#[test]
fn span_renderers_fall_back_to_the_match() {
    let inline = MathOptions::new(false).unwrap();
    let display = MathOptions::new(true).unwrap();
    let good = vec![Some("$x$".to_string()), Some("x".to_string())];
    let bad = vec![Some("$\\frac{$".to_string()), Some("\\frac{".to_string())];
    let bare = vec![Some("$$".to_string())];
    assert_eq!(inline.render_inline_span(&good), X_INLINE);
    assert_eq!(inline.render_inline_span(&bad), "$\\frac{$");
    assert_eq!(inline.render_inline_span(&bare), "$$");
    assert_eq!(
        display.render_display_span(&good),
        format!("<div class=\"math-display\">{}</div>", X_DISPLAY)
    );
    assert_eq!(display.render_display_span(&bad), "$\\frac{$");
}

#[test]
fn math_in_highlighted_code_is_not_rendered() {
    let highlighter = Highlighter::new();
    let html = highlighter.render("```rust\n`$x$`\n```\n").unwrap();
    assert!(html.contains("<span style="));
    assert!(!html.contains("katex"));
    assert!(html.contains("$x"));
}

#[test]
fn bare_math_is_rendered() {
    let highlighter = Highlighter::new();
    let html = highlighter.render("$x$").unwrap();
    assert_eq!(html, format!("<p>{}</p>", X_INLINE));
}

#[test]
fn rendering_twice_gives_the_same_bytes() {
    let highlighter = Highlighter::new();
    let body = "# T\n\n```rust\nfn f() {}\n```\n\n$a^2$ and $$b$$ and $\\bad{$\n";
    let first = highlighter.render(body);
    let second = highlighter.render(body);
    assert!(first.is_some());
    assert_eq!(first, second);
    let other = Highlighter::new();
    assert_eq!(other.render(body), first);
}

#[test]
fn code_block_wraps_the_highlighted_source() {
    let found = vec![
        Some("<pre><code class=\"language-rust\">a</code></pre>".to_string()),
        Some("rust".to_string()),
        Some("a".to_string()),
    ];
    assert_eq!(
        code_block(&found, Some("<b>a</b>".to_string())),
        "<pre><code class=\"language-rust\"><b>a</b></code></pre>"
    );
    assert_eq!(code_block(&found, None), "<pre><code class=\"language-rust\">a</code></pre>");
    let bare = vec![Some("whole".to_string())];
    assert_eq!(code_block(&bare, Some("<b>a</b>".to_string())), "whole");
}

#[test]
fn inline_span_is_the_formula_or_the_span() {
    let found = vec![Some("$x$".to_string()), Some("x".to_string())];
    assert_eq!(inline_span(&found, Some("<i>x</i>".to_string())), "<i>x</i>");
    assert_eq!(inline_span(&found, None), "$x$");
}

#[test]
fn display_span_puts_the_formula_in_a_block() {
    let found = vec![Some("$$x$$".to_string()), Some("x".to_string())];
    assert_eq!(
        display_span(&found, Some("<i>x</i>".to_string())),
        "<div class=\"math-display\"><i>x</i></div>"
    );
    assert_eq!(display_span(&found, None), "$$x$$");
}

#[test]
fn span_and_block_sources_come_from_the_groups() {
    let highlighter = Highlighter::new();
    let inline = MathOptions::new(false).unwrap();
    let good = vec![Some("$x$".to_string()), Some("x".to_string())];
    let bare = vec![Some("$x$".to_string())];
    assert_eq!(inline.render_span(&good), Some(X_INLINE.to_string()));
    assert_eq!(inline.render_span(&bare), None);
    let unknown = vec![Some("b".to_string()), Some("zzz".to_string()), Some("x".to_string())];
    assert_eq!(highlighter.highlight_block(&unknown), None);
    assert_eq!(highlighter.highlight_block(&bare), None);
    let rust = vec![Some("b".to_string()), Some("rust".to_string()), Some("1".to_string())];
    assert!(highlighter.highlight_block(&rust).unwrap().contains("<span style="));
}

#[test]
fn math_options_can_always_be_built() {
    assert!(MathOptions::new(false).is_some());
    assert!(MathOptions::new(true).is_some());
}

#[test]
fn gaps_and_matches_make_up_the_text() {
    let pattern = Pattern::compile("\\$([^\\$]+?)\\$").unwrap();
    for text in ["", "$", "a $x$ b $y$", "$x$$y$", "$$x$$", "caf\u{e9} $\u{3b1}$ \u{2603}"] {
        let gaps = pattern.gaps(text);
        let found = pattern.captures(text);
        assert_eq!(gaps.len(), found.len() + 1);
        let wholes: Vec<String> = found.iter().map(|m| m[0].clone().unwrap()).collect();
        assert_eq!(weave_texts(&gaps, &wholes), text);
    }
}

#[test]
fn text_without_spans_comes_back_unchanged() {
    let inline = MathOptions::new(false).unwrap();
    let display = MathOptions::new(true).unwrap();
    let highlighter = Highlighter::new();
    for text in ["", "$", "a $ b", "$$", "no dollars", "<p>x</p>"] {
        assert_eq!(process_inline_math(text, &inline), text);
        assert_eq!(process_display_math(text, &display), text);
        assert_eq!(highlighter.highlight_code_blocks(text), Some(text.to_string()));
    }
}
