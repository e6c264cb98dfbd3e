//! Reference resolution driven exactly as the go-to-definition handler
//! drives it: parse, query at a cursor offset, resolve, and report the
//! root key and reference name.

use plxt::locator::parse_and_query;
use plxt::mthds_resolution::resolve_reference;

/// Simulate the go-to-definition handler for a source text and cursor
/// offset: the root key ("pipe" or "concept") and the reference name when
/// the handler would produce a result, `None` when it would bail.
fn simulate_handler(toml: &str, offset: u32) -> Option<(String, String)> {
    let (dom, query) = parse_and_query(toml, offset);
    let resolved = resolve_reference(&dom, &query)?;
    Some((resolved.kind.root_key().to_string(), resolved.ref_name.clone()))
}

#[test]
fn goto_definition_test_pipe_reference() {
    let toml = r#"[pipe.my_pipe]
description = "A pipe"

[pipe.other]
pipe = "my_pipe"
"#;
    let target = r#"pipe = "my_pipe""#;
    let line_start = toml.find(target).unwrap();
    let quote_pos = line_start + target.find('"').unwrap();
    let offset = (quote_pos + 1) as u32;

    let result = simulate_handler(toml, offset);
    assert_eq!(result, Some(("pipe".to_string(), "my_pipe".to_string())));
}

#[test]
fn goto_definition_test_concept_output_reference() {
    let toml = r#"[concept.DocumentAnalysis]
description = "Analysis"

[pipe.analyze]
output = "DocumentAnalysis"
"#;
    let target = r#"output = "DocumentAnalysis""#;
    let line_start = toml.find(target).unwrap();
    let quote_pos = line_start + target.find('"').unwrap();
    let offset = (quote_pos + 1) as u32;

    let result = simulate_handler(toml, offset);
    assert_eq!(
        result,
        Some(("concept".to_string(), "DocumentAnalysis".to_string()))
    );
}

#[test]
fn goto_definition_test_concept_refines_reference() {
    let toml = r#"[concept.Base]
description = "Base concept"

[concept.Child]
refines = "Base"
"#;
    let target = r#"refines = "Base""#;
    let line_start = toml.find(target).unwrap();
    let quote_pos = line_start + target.find('"').unwrap();
    let offset = (quote_pos + 1) as u32;

    let result = simulate_handler(toml, offset);
    assert_eq!(result, Some(("concept".to_string(), "Base".to_string())));
}

#[test]
fn goto_definition_test_concept_inputs_inline_table() {
    let toml = r#"[concept.FeatureAnalysis]
description = "Feature analysis"

[pipe.my_pipe]
inputs = { photo = "FeatureAnalysis" }
"#;
    let target = r#"photo = "FeatureAnalysis""#;
    let line_start = toml.find(target).unwrap();
    let quote_pos = line_start + target.find('"').unwrap();
    let offset = (quote_pos + 1) as u32;

    let result = simulate_handler(toml, offset);
    assert_eq!(
        result,
        Some(("concept".to_string(), "FeatureAnalysis".to_string()))
    );
}

#[test]
fn goto_definition_test_namespaced_concept_no_match() {
    let toml = r#"[pipe.my_pipe]
output = "images.Photo"
"#;
    let target = r#"output = "images.Photo""#;
    let line_start = toml.find(target).unwrap();
    let quote_pos = line_start + target.find('"').unwrap();
    let offset = (quote_pos + 1) as u32;

    let result = simulate_handler(toml, offset);
    // No local concept.images.Photo exists, so should return None
    assert_eq!(result, None);
}

#[test]
fn goto_definition_test_unrelated_key_no_match() {
    let toml = r#"[pipe.my_pipe]
description = "SomeString"
"#;
    let target = r#"description = "SomeString""#;
    let line_start = toml.find(target).unwrap();
    let quote_pos = line_start + target.find('"').unwrap();
    let offset = (quote_pos + 1) as u32;

    let result = simulate_handler(toml, offset);
    assert_eq!(result, None);
}

#[test]
fn goto_definition_test_concept_output_in_full_mthds() {
    let toml = r#"domain      = "document_comparison"
description = "Extract and compare two PDF documents, producing a structured comparison report"
main_pipe   = "compare_documents"

[concept.DocumentAnalysis]
description = "Structured analysis of a document's key content"

[concept.DocumentAnalysis.structure]
title      = { type = "text", description = "Document title or identifier", required = true }
key_points = { type = "text", description = "Main points and arguments", required = true }
structure  = { type = "text", description = "Document structure and organization", required = true }
tone       = { type = "text", description = "Writing tone and style" }

[concept.ComparisonReport]
description = "Detailed comparison between two documents"

[concept.ComparisonReport.structure]
similarities     = { type = "text", description = "Key similarities between the documents", required = true }
differences      = { type = "text", description = "Key differences between the documents", required = true }
unique_to_first  = { type = "text", description = "Points unique to the first document", required = true }
unique_to_second = { type = "text", description = "Points unique to the second document", required = true }
recommendation   = { type = "text", description = "Overall assessment and recommendation", required = true }

[pipe.compare_documents]
type = "PipeSequence"
description = "Main pipeline: extract both documents in parallel, analyze them, compare, and produce a report"
inputs = { doc_a = "Document", doc_b = "Document" }
output = "Html"
steps = [
  { pipe = "extract_both", result = "extracted" },
  { pipe = "analyze_both", result = "analyzed" },
  { pipe = "compare_analyses", result = "comparison" },
  { pipe = "render_comparison_report", result = "report_html" },
]

[pipe.analyze_doc_a]
type = "PipeLLM"
description = "Analyze the first document's content"
inputs = { pages_a = "Page" }
output = "DocumentAnalysis"
model = "$retrieval"
system_prompt = "You are a document analysis expert. Extract structured information from documents."
prompt = """
Analyze the following document and extract its key information:

@pages_a
"""
"#;
    // Find the output = "DocumentAnalysis" in the pipe.analyze_doc_a section
    let target = r#"output = "DocumentAnalysis""#;
    // There might be multiple "output" entries; find the one after analyze_doc_a
    let analyze_section = toml.find("[pipe.analyze_doc_a]").unwrap();
    let output_in_section = toml[analyze_section..].find(target).unwrap() + analyze_section;
    let quote_pos = output_in_section + target.find('"').unwrap();
    let offset = (quote_pos + 1) as u32;

    let result = simulate_handler(toml, offset);
    assert_eq!(
        result,
        Some(("concept".to_string(), "DocumentAnalysis".to_string())),
        "Should resolve output = \"DocumentAnalysis\" to concept.DocumentAnalysis"
    );
}

#[test]
fn goto_definition_test_with_bare_table_headers() {
    // This file has bare [concept] and [pipe] headers before the named entries
    let toml = r#"domain = "extract_slides"
description = "The domain of extracting slides from documents"
main_pipe = "extract_slides"

[concept]
[concept.Slide]
description = "A slide from a presentation"
[concept.Slide.structure]
title = { type = "text", description = "The title of the slide" }

[pipe]

[pipe.extract_slides]
type = "PipeSequence"
description = "Extract markdown from a document"
inputs = { document = "Document" }
output = "Text"
steps = [
    { pipe = "describe_slide", result = "slides" },
]

[pipe.describe_slide]
type = "PipeLLM"
description = "Describe a slide"
inputs = { page = "Page" }
output = "Slide"
"#;
    // Test main_pipe = "extract_slides"
    {
        let target = r#"main_pipe = "extract_slides""#;
        let pos = toml.find(target).unwrap();
        let quote_pos = pos + target.find('"').unwrap();
        let offset = (quote_pos + 1) as u32;
        let result = simulate_handler(toml, offset);
        assert_eq!(
            result,
            Some(("pipe".to_string(), "extract_slides".to_string())),
            "main_pipe reference should resolve"
        );
    }

    // Test pipe = "describe_slide" (inside inline table in array)
    {
        let target = r#"pipe = "describe_slide""#;
        let pos = toml.find(target).unwrap();
        let quote_pos = pos + target.find('"').unwrap();
        let offset = (quote_pos + 1) as u32;
        let result = simulate_handler(toml, offset);
        assert_eq!(
            result,
            Some(("pipe".to_string(), "describe_slide".to_string())),
            "pipe reference in steps should resolve"
        );
    }

    // Test output = "Slide" (concept reference)
    {
        let target = r#"output = "Slide""#;
        // Find the one in pipe.describe_slide (not pipe.extract_slides)
        let describe_section = toml.find("[pipe.describe_slide]").unwrap();
        let pos = toml[describe_section..].find(target).unwrap() + describe_section;
        let quote_pos = pos + target.find('"').unwrap();
        let offset = (quote_pos + 1) as u32;
        let result = simulate_handler(toml, offset);
        assert_eq!(
            result,
            Some(("concept".to_string(), "Slide".to_string())),
            "output = \"Slide\" should resolve to concept.Slide"
        );
    }
}
