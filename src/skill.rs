use std::collections::HashMap;
use vstd::prelude::*;

verus! {

/// A tool that an agent can call, as a skill hands it over.
pub trait ToolDyn: Send + Sync {
    /// The name under which the agent calls the tool.
    fn name(&self) -> String;
}

/// A static context document: an identifier and its text.
#[derive(Debug, Clone, PartialEq)]
pub struct Document {
    pub id: String,
    pub text: String,
    pub additional_props: HashMap<String, String>,
}

/// The view of a document: its identifier and its text.
pub open spec fn doc_view(d: Document) -> (Seq<char>, Seq<char>) {
    (d.id@, d.text@)
}

/// A reusable capability that can be added to an agent.
pub trait Skill: Send + Sync {
    /// The name of the skill.
    fn name(&self) -> String;

    /// What the skill provides; nothing unless the skill says.
    fn description(&self) -> String {
        String::new()
    }

    /// The skill taken apart, since its tools cannot be cloned.
    fn into_components(self) -> SkillComponents;
}

/// What a skill is made of.
pub struct SkillComponents {
    /// The tools of the skill.
    pub tools: Vec<Box<dyn ToolDyn>>,
    /// The text that the skill adds to the system prompt.
    pub preamble: Option<String>,
    /// The static context documents of the skill.
    pub context_documents: Vec<Document>,
}

pub open spec fn opt_view(o: Option<String>) -> Option<Seq<char>> {
    match o {
        Some(s) => Some(s@),
        None => None,
    }
}

/// A skill built field by field.
pub struct SimpleSkill {
    name: String,
    description: String,
    tools: Vec<Box<dyn ToolDyn>>,
    preamble: Option<String>,
    context_documents: Vec<Document>,
}

impl SimpleSkill {
    pub closed spec fn spec_name(&self) -> Seq<char> {
        self.name@
    }

    pub closed spec fn spec_description(&self) -> Seq<char> {
        self.description@
    }

    pub closed spec fn spec_tools(&self) -> Seq<Box<dyn ToolDyn>> {
        self.tools@
    }

    pub closed spec fn spec_preamble(&self) -> Option<Seq<char>> {
        opt_view(self.preamble)
    }

    pub closed spec fn spec_documents(&self) -> Seq<(Seq<char>, Seq<char>)> {
        self.context_documents@.map_values(|d: Document| doc_view(d))
    }

    /// A builder with no name, an empty description, and nothing else.
    pub fn builder() -> (r: SimpleSkillBuilder)
        ensures
            r.spec_name() is None,
            r.spec_description() == Seq::<char>::empty(),
            r.spec_tools().len() == 0,
            r.spec_preamble() is None,
            r.spec_documents().len() == 0,
    {
        SimpleSkillBuilder::new()
    }

    pub fn name(&self) -> (r: String)
        ensures
            r@ == self.spec_name(),
    {
        self.name.clone()
    }

    pub fn description(&self) -> (r: String)
        ensures
            r@ == self.spec_description(),
    {
        self.description.clone()
    }

    pub fn into_components(self) -> (r: SkillComponents)
        ensures
            r.tools@ == self.spec_tools(),
            opt_view(r.preamble) == self.spec_preamble(),
            r.context_documents@.map_values(|d: Document| doc_view(d)) == self.spec_documents(),
    {
        SkillComponents {
            tools: self.tools,
            preamble: self.preamble,
            context_documents: self.context_documents,
        }
    }
}

impl Skill for SimpleSkill {
    fn name(&self) -> String {
        SimpleSkill::name(self)
    }

    fn description(&self) -> String {
        SimpleSkill::description(self)
    }

    fn into_components(self) -> SkillComponents {
        SimpleSkill::into_components(self)
    }
}

/// Collects the parts of a [`SimpleSkill`]; a name is required.
pub struct SimpleSkillBuilder {
    name: Option<String>,
    description: String,
    tools: Vec<Box<dyn ToolDyn>>,
    preamble: Option<String>,
    context_documents: Vec<Document>,
}

impl SimpleSkillBuilder {
    pub closed spec fn spec_name(&self) -> Option<Seq<char>> {
        opt_view(self.name)
    }

    pub closed spec fn spec_description(&self) -> Seq<char> {
        self.description@
    }

    pub closed spec fn spec_tools(&self) -> Seq<Box<dyn ToolDyn>> {
        self.tools@
    }

    pub closed spec fn spec_preamble(&self) -> Option<Seq<char>> {
        opt_view(self.preamble)
    }

    pub closed spec fn spec_documents(&self) -> Seq<(Seq<char>, Seq<char>)> {
        self.context_documents@.map_values(|d: Document| doc_view(d))
    }

    fn new() -> (r: Self)
        ensures
            r.spec_name() is None,
            r.spec_description() == Seq::<char>::empty(),
            r.spec_tools().len() == 0,
            r.spec_preamble() is None,
            r.spec_documents().len() == 0,
    {
        SimpleSkillBuilder {
            name: None,
            description: String::new(),
            tools: Vec::new(),
            preamble: None,
            context_documents: Vec::new(),
        }
    }

    /// Sets the name of the skill.
    pub fn name(self, name: &str) -> (r: Self)
        ensures
            r.spec_name() == Some(name@),
            r.spec_description() == self.spec_description(),
            r.spec_tools() == self.spec_tools(),
            r.spec_preamble() == self.spec_preamble(),
            r.spec_documents() == self.spec_documents(),
    {
        let mut b = self;
        b.name = Some(String::from_str(name));
        b
    }

    /// Sets the description of the skill.
    pub fn description(self, description: &str) -> (r: Self)
        ensures
            r.spec_name() == self.spec_name(),
            r.spec_description() == description@,
            r.spec_tools() == self.spec_tools(),
            r.spec_preamble() == self.spec_preamble(),
            r.spec_documents() == self.spec_documents(),
    {
        let mut b = self;
        b.description = String::from_str(description);
        b
    }

    /// Adds a tool.
    pub fn tool(self, tool: Box<dyn ToolDyn>) -> (r: Self)
        ensures
            r.spec_name() == self.spec_name(),
            r.spec_description() == self.spec_description(),
            r.spec_tools() == self.spec_tools().push(tool),
            r.spec_preamble() == self.spec_preamble(),
            r.spec_documents() == self.spec_documents(),
    {
        let mut b = self;
        b.tools.push(tool);
        b
    }

    /// Adds several tools, after those already added and in their order.
    pub fn tools(self, tools: Vec<Box<dyn ToolDyn>>) -> (r: Self)
        ensures
            r.spec_name() == self.spec_name(),
            r.spec_description() == self.spec_description(),
            r.spec_tools() == self.spec_tools() + tools@,
            r.spec_preamble() == self.spec_preamble(),
            r.spec_documents() == self.spec_documents(),
    {
        let mut b = self;
        let mut more = tools;
        b.tools.append(&mut more);
        b
    }

    /// Sets the preamble of the skill.
    pub fn preamble(self, preamble: &str) -> (r: Self)
        ensures
            r.spec_name() == self.spec_name(),
            r.spec_description() == self.spec_description(),
            r.spec_tools() == self.spec_tools(),
            r.spec_preamble() == Some(preamble@),
            r.spec_documents() == self.spec_documents(),
    {
        let mut b = self;
        b.preamble = Some(String::from_str(preamble));
        b
    }

    /// Adds a context document.
    pub fn context_document(self, id: &str, text: &str) -> (r: Self)
        ensures
            r.spec_name() == self.spec_name(),
            r.spec_description() == self.spec_description(),
            r.spec_tools() == self.spec_tools(),
            r.spec_preamble() == self.spec_preamble(),
            r.spec_documents() == self.spec_documents().push((id@, text@)),
    {
        let mut b = self;
        let ghost before = b.context_documents@;
        let d = Document { id: String::from_str(id), text: String::from_str(text), additional_props: HashMap::new() };
        b.context_documents.push(d);
        proof {
            assert(b.context_documents@.map_values(|d: Document| doc_view(d)) =~= before.map_values(
                |d: Document| doc_view(d),
            ).push((id@, text@)));
        }
        b
    }

    /// Adds several context documents, after those already added.
    pub fn context_documents(self, documents: Vec<Document>) -> (r: Self)
        ensures
            r.spec_name() == self.spec_name(),
            r.spec_description() == self.spec_description(),
            r.spec_tools() == self.spec_tools(),
            r.spec_preamble() == self.spec_preamble(),
            r.spec_documents() == self.spec_documents() + documents@.map_values(|d: Document| doc_view(d)),
    {
        let mut b = self;
        let ghost before = b.context_documents@;
        let mut more = documents;
        let ghost added = more@;
        b.context_documents.append(&mut more);
        proof {
            assert(b.context_documents@.map_values(|d: Document| doc_view(d)) =~= before.map_values(
                |d: Document| doc_view(d),
            ) + added.map_values(|d: Document| doc_view(d)));
        }
        b
    }

    /// The skill. A skill cannot be built without a name.
    pub fn build(self) -> (r: SimpleSkill)
        requires
            self.spec_name() is Some,
        ensures
            Some(r.spec_name()) == self.spec_name(),
            r.spec_description() == self.spec_description(),
            r.spec_tools() == self.spec_tools(),
            r.spec_preamble() == self.spec_preamble(),
            r.spec_documents() == self.spec_documents(),
    {
        SimpleSkill {
            name: self.name.unwrap(),
            description: self.description,
            tools: self.tools,
            preamble: self.preamble,
            context_documents: self.context_documents,
        }
    }
}

} // verus!
