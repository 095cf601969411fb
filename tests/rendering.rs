use std::ops::Range;

use codespan_ffi::diagnostic::{
    CharStyle, CodespanDiagnostic, Config, DisplayStyle, LabelStyle, Severity, CHAR_STYLE_FANCY,
    DISPLAY_STYLE_RICH, SEVERITY_ERROR,
};
use codespan_ffi::files::SourceFiles;
use codespan_ffi::source_map::{CodespanSourceMap, SourceHost};
use codespan_reporting::diagnostic as csr_diag;
use codespan_reporting::files::{Error, Files};
use codespan_reporting::term;
use codespan_reporting::term::termcolor::Buffer;
use unindent::unindent;

struct View<'m, H: SourceHost>(&'m CodespanSourceMap<H>);

impl<'a, 'm: 'a, H: SourceHost> Files<'a> for View<'m, H> {
    type FileId = usize;
    type Name = &'a str;
    type Source = &'a str;

    fn name(&'a self, id: usize) -> Result<&'a str, Error> {
        self.0.name(id).ok_or(Error::FileMissing)
    }

    fn source(&'a self, id: usize) -> Result<&'a str, Error> {
        self.0.source(id).ok_or(Error::FileMissing)
    }

    fn line_index(&'a self, id: usize, byte_index: usize) -> Result<usize, Error> {
        Ok(self.0.line_index(id, byte_index))
    }

    fn line_range(&'a self, id: usize, line_index: usize) -> Result<Range<usize>, Error> {
        let (start, end) = self.0.line_range(id, line_index);
        Ok(start..end)
    }

    fn line_number(&'a self, id: usize, line_index: usize) -> Result<usize, Error> {
        self.0.line_number(id, line_index).ok_or(Error::FileMissing)
    }

    fn column_number(&'a self, id: usize, line_index: usize, byte_index: usize) -> Result<usize, Error> {
        self.0.column_number(id, line_index, byte_index).ok_or(Error::FileMissing)
    }
}

fn convert(d: &CodespanDiagnostic) -> (csr_diag::Diagnostic<usize>, term::Config) {
    let severity = match d.severity {
        Severity::Help => csr_diag::Severity::Help,
        Severity::Note => csr_diag::Severity::Note,
        Severity::Warning => csr_diag::Severity::Warning,
        Severity::Error => csr_diag::Severity::Error,
        Severity::Bug => csr_diag::Severity::Bug,
    };
    let mut out = csr_diag::Diagnostic::new(severity).with_message(d.message.clone());
    out.code = d.code.clone();
    for l in &d.labels {
        let style = match l.style {
            LabelStyle::Primary => csr_diag::LabelStyle::Primary,
            LabelStyle::Secondary => csr_diag::LabelStyle::Secondary,
        };
        out.labels.push(csr_diag::Label::new(style, l.file_id, l.start..l.end).with_message(l.message.clone()));
    }
    out.notes = d.notes.clone();
    let c: Config = d.config;
    let config = term::Config {
        display_style: match c.display_style {
            DisplayStyle::Rich => term::DisplayStyle::Rich,
            DisplayStyle::Medium => term::DisplayStyle::Medium,
            DisplayStyle::Short => term::DisplayStyle::Short,
        },
        chars: match c.chars {
            CharStyle::Fancy => term::Chars::default(),
            CharStyle::Ascii => term::Chars::ascii(),
        },
        tab_width: c.tab_width,
        ..term::Config::default()
    };
    (out, config)
}

fn render(d: &CodespanDiagnostic, map: &CodespanSourceMap<SourceFiles>) -> String {
    let (diagnostic, config) = convert(d);
    let mut buffer = Buffer::no_color();
    term::emit(&mut buffer, &config, &View(map), &diagnostic).unwrap();
    String::from_utf8(buffer.into_inner()).unwrap()
}

fn fizz_buzz() -> String {
    unindent(
        r#"
            module FizzBuzz where

            fizz₁ : Nat → String
            fizz₁ num = case (mod num 5) (mod num 3) of
                0 0 => "FizzBuzz"
                0 _ => "Fizz"
                _ 0 => "Buzz"
                _ _ => num

            fizz₂ : Nat → String
            fizz₂ num =
                case (mod num 5) (mod num 3) of
                    0 0 => "FizzBuzz"
                    0 _ => "Fizz"
                    _ 0 => "Buzz"
                    _ _ => num
            "#,
    )
}

fn fizz_buzz_map() -> (CodespanSourceMap<SourceFiles>, usize) {
    let mut files = SourceFiles::new();
    let file_id = files.add("FizzBuzz.fun".to_owned(), fizz_buzz());
    (CodespanSourceMap::codespan_new_source_map(files), file_id)
}

#[test]
fn simple_test() {
    let (src_map, file_id) = fizz_buzz_map();
    let mut diagnostic =
        CodespanDiagnostic::codespan_new_diagnostic(SEVERITY_ERROR, "`case` clauses have incompatible types".to_string());
    diagnostic.codespan_diagnostic_set_code("E0308".to_string());
    diagnostic.codespan_diagnostic_set_primary(file_id, 328, 331, "expected `String`, found `Nat`".to_string());
    diagnostic.codespan_diagnostic_add_secondary(file_id, 211, 331, "`case` clauses have incompatible types".to_string());
    diagnostic.codespan_diagnostic_add_secondary(file_id, 258, 268, "this is found to be of type `String`".to_string());
    diagnostic.codespan_diagnostic_add_secondary(file_id, 284, 290, "this is found to be of type `String`".to_string());
    diagnostic.codespan_diagnostic_add_secondary(file_id, 306, 312, "this is found to be of type `String`".to_string());
    diagnostic.codespan_diagnostic_add_secondary(file_id, 186, 192, "expected type `String` found here".to_string());
    diagnostic.codespan_diagnostic_add_note(unindent(
        "
            expected type `String`
                found type `Nat`
            ",
    ));
    let output = render(&diagnostic, &src_map);
    assert!(output.starts_with("error[E0308]: `case` clauses have incompatible types"));
    assert!(output.contains("FizzBuzz.fun:16:16"));
    assert!(output.contains("expected `String`, found `Nat`"));
    assert!(output.contains("= expected type `String`"));
    src_map.codespan_delete_source_map();
}

#[test]
fn diagnostic_test() {
    let (src_map, file_id) = fizz_buzz_map();
    let mut diagnostic =
        CodespanDiagnostic::codespan_new_diagnostic(SEVERITY_ERROR, "`case` clauses have incompatible types".to_string());
    diagnostic.codespan_diagnostic_set_config(DISPLAY_STYLE_RICH, CHAR_STYLE_FANCY, 4);
    diagnostic.codespan_diagnostic_set_code("-Wthis_is_an_error".to_string());
    diagnostic.codespan_diagnostic_set_primary(file_id, 328, 331, "expected `String`, found `Nat`".to_string());
    diagnostic.codespan_diagnostic_add_secondary(file_id, 211, 231, "`case` clauses have incompatible types".to_string());
    let output = render(&diagnostic, &src_map);
    assert!(output.starts_with("error[-Wthis_is_an_error]: `case` clauses have incompatible types"));
    assert!(output.contains("┌─ FizzBuzz.fun:16:16"));
    diagnostic.codespan_delete_diagnostic();
    src_map.codespan_delete_source_map();
}

fn scenario() -> (CodespanDiagnostic, CodespanSourceMap<SourceFiles>) {
    let mut files = SourceFiles::new();
    let id = files.add("main.fun".to_string(), "fn main() {\n    foo(bar);\n}\n".to_string());
    let mut d = CodespanDiagnostic::codespan_new_diagnostic(SEVERITY_ERROR, "type mismatch".to_string());
    d.codespan_diagnostic_set_code("E001".to_string());
    d.codespan_diagnostic_set_primary(id, 16, 19, "wrong type".to_string());
    d.codespan_diagnostic_add_note("expected String".to_string());
    d.codespan_diagnostic_set_config(DISPLAY_STYLE_RICH, CHAR_STYLE_FANCY, 4);
    (d, CodespanSourceMap::codespan_new_source_map(files))
}

#[test]
fn end_to_end_scenario() {
    let (d, map) = scenario();
    let output = render(&d, &map);
    assert!(output.starts_with("error[E001]: type mismatch"));
    assert!(output.contains("┌─ main.fun:2:5"));
    assert!(output.contains("2 │     foo(bar);"));
    assert!(output.contains("    ^^^ wrong type"));
    assert!(output.contains("= expected String"));
    assert_eq!(output, render(&d, &map));
}

#[test]
fn render_twice_is_identical_and_read_only() {
    let (d, map) = scenario();
    let first = render(&d, &map);
    let second = render(&d, &map);
    assert_eq!(first, second);
    assert_eq!(d.labels.len(), 1);
    assert_eq!((d.labels[0].start, d.labels[0].end), (16, 19));
    assert_eq!(d.notes, vec!["expected String".to_string()]);
}

#[test]
fn zero_labels_render_header_only() {
    let (_, map) = scenario();
    let d = CodespanDiagnostic::codespan_new_diagnostic(SEVERITY_ERROR, "lonely".to_string());
    let output = render(&d, &map);
    assert!(output.starts_with("error: lonely"));
    assert!(!output.contains("┌─"));
    assert!(!output.contains("│"));
}

#[test]
fn labels_in_different_files_render_in_insertion_order() {
    let mut files = SourceFiles::new();
    let a = files.add("a.fun".to_string(), "alpha\n".to_string());
    let b = files.add("b.fun".to_string(), "beta\n".to_string());
    let map = CodespanSourceMap::codespan_new_source_map(files);
    let mut d = CodespanDiagnostic::codespan_new_diagnostic(SEVERITY_ERROR, "order".to_string());
    d.codespan_diagnostic_set_primary(b, 0, 4, "first label".to_string());
    d.codespan_diagnostic_add_secondary(a, 0, 5, "second label".to_string());
    let output = render(&d, &map);
    let first = output.find("first label").unwrap();
    let second = output.find("second label").unwrap();
    assert!(first < second);
    assert!(output.find("b.fun").unwrap() < output.find("a.fun").unwrap());
}
