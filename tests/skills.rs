use std::collections::HashMap;

use rig_libsql::skill::{Document, SimpleSkill, Skill, ToolDyn};

struct TestTool;

impl ToolDyn for TestTool {
    fn name(&self) -> String {
        "test_tool".to_string()
    }
}

#[test]
fn test_simple_skill_builder() {
    let skill = SimpleSkill::builder()
        .name("test_skill")
        .description("A test skill")
        .preamble("Test preamble")
        .context_document("doc1", "Test document")
        .build();

    assert_eq!(skill.name(), "test_skill");
    assert_eq!(skill.description(), "A test skill");

    let components = skill.into_components();
    assert_eq!(components.preamble, Some("Test preamble".to_string()));
    assert_eq!(components.context_documents.len(), 1);
}

#[test]
fn test_simple_skill_with_tools() {
    let tool: Box<dyn ToolDyn> = Box::new(TestTool);
    let skill = SimpleSkill::builder()
        .name("test_skill")
        .tool(tool)
        .build();

    assert_eq!(skill.name(), "test_skill");

    let components = skill.into_components();
    assert_eq!(components.tools.len(), 1);
}

#[test]
fn skill_defaults_are_empty() {
    let skill = SimpleSkill::builder().name("bare").build();
    assert_eq!(skill.description(), "");
    let components = skill.into_components();
    assert!(components.preamble.is_none());
    assert!(components.tools.is_empty());
    assert!(components.context_documents.is_empty());
}

#[test]
fn skill_collects_tools_and_documents_in_order() {
    let first: Box<dyn ToolDyn> = Box::new(TestTool);
    let more: Vec<Box<dyn ToolDyn>> = vec![Box::new(TestTool), Box::new(TestTool)];
    let docs = vec![
        Document { id: "b".to_string(), text: "second".to_string(), additional_props: HashMap::new() },
        Document { id: "c".to_string(), text: "third".to_string(), additional_props: HashMap::new() },
    ];
    let skill = SimpleSkill::builder()
        .name("multi")
        .tool(first)
        .tools(more)
        .context_document("a", "first")
        .context_documents(docs)
        .build();
    let components = skill.into_components();
    assert_eq!(components.tools.len(), 3);
    assert_eq!(components.tools[0].name(), "test_tool");
    let ids: Vec<&str> = components.context_documents.iter().map(|d| d.id.as_str()).collect();
    assert_eq!(ids, vec!["a", "b", "c"]);
    assert_eq!(components.context_documents[2].text, "third");
    assert!(components.context_documents[0].additional_props.is_empty());
}

fn describe<S: Skill>(s: &S) -> (String, String) {
    (Skill::name(s), Skill::description(s))
}

#[test]
fn skill_trait_reports_name_and_description() {
    let skill = SimpleSkill::builder().name("n").description("d").build();
    assert_eq!(describe(&skill), ("n".to_string(), "d".to_string()));
}

#[test]
fn later_name_replaces_earlier() {
    let skill = SimpleSkill::builder().name("first").name("second").build();
    assert_eq!(skill.name(), "second");
}

struct Bare;

impl Skill for Bare {
    fn name(&self) -> String {
        "bare".to_string()
    }

    fn into_components(self) -> rig_libsql::skill::SkillComponents {
        rig_libsql::skill::SkillComponents { tools: vec![], preamble: None, context_documents: vec![] }
    }
}

#[test]
fn skill_description_defaults_to_empty() {
    assert_eq!(Bare.description(), "");
    assert_eq!(Bare.name(), "bare");
}
