//! The generation engine: renders a device description, or a register or a
//! method of one, into DML source text.
//!
//! Rendering is deterministic. The text depends on the description, on the
//! imports of the generation context and on the formatting configuration, and
//! on nothing else. What is absent from a description leaves no trace in the
//! text: no separator, no empty comment, no empty parentheses.

use vstd::prelude::*;
use crate::layout::{
    bank_lines, banks_lines, device_declaration, device_lines, device_opening, doc_lines,
    field_declaration, field_lines, fields_lines, file_lines, header_lines, import_line,
    imports_lines, indent_unit, interface_line, interfaces_lines, lemma_lines_text_concat,
    lemma_lines_text_push, line_ending, line_text, lines_text, method_body, method_lines,
    method_signature, methods_lines, parameter_list, parameters_text,
    register_header, register_lines, registers_lines, Line, LineKind,
};
pub use crate::model::{
    BankSpec, DeviceModel, DeviceSpec, FieldSpec, InterfaceSpec, MethodSpec, ParameterSpec,
    RegisterSpec,
};
use crate::text::{decimal_text, repeat_space, spaces};

verus! {

/// How one step of indentation is written.
#[derive(Debug, Clone, Copy)]
pub enum IndentStyle {
    Spaces(usize),
    Tabs,
}

/// How a line ends.
#[derive(Debug, Clone, Copy)]
pub enum LineEnding {
    Unix,
    Windows,
}

/// Formatting rules of the engine. The maximum line length is advisory: no
/// line is wrapped.
#[derive(Debug, Clone, Copy)]
pub struct GenerationConfig {
    pub indent_style: IndentStyle,
    pub line_ending: LineEnding,
    pub max_line_length: usize,
    pub generate_docs: bool,
    pub validate_output: bool,
}

impl Default for GenerationConfig {
    /// Four spaces, Unix line endings, 100 columns, documentation and
    /// validation switched on.
    fn default() -> (config: Self)
        ensures
            config.indent_style == IndentStyle::Spaces(4),
            config.line_ending == LineEnding::Unix,
            config.max_line_length == 100,
            config.generate_docs,
            config.validate_output,
    {
        Self {
            indent_style: IndentStyle::Spaces(4),
            line_ending: LineEnding::Unix,
            max_line_length: 100,
            generate_docs: true,
            validate_output: true,
        }
    }
}

/// What a generation run works in: the device's name, a namespace, the files
/// to import, the templates in use, and the formatting rules.
#[derive(Debug, Clone)]
pub struct GenerationContext {
    pub device_name: String,
    pub namespace: String,
    pub imports: Vec<String>,
    pub templates: Vec<String>,
    pub config: GenerationConfig,
}

/// A parameter of a code template.
#[derive(Debug, Clone)]
pub struct TemplateParameter {
    pub name: String,
    pub param_type: String,
    pub default_value: Option<String>,
}

/// A named piece of text with parameters.
#[derive(Debug, Clone)]
pub struct CodeTemplate {
    pub name: String,
    pub content: String,
    pub parameters: Vec<TemplateParameter>,
}

/// The code templates known to a generator, each under its own name.
pub struct TemplateRegistry {
    templates: Vec<CodeTemplate>,
}

impl TemplateRegistry {
    /// The names of the templates, in the order in which they were added.
    pub closed spec fn names(&self) -> Seq<Seq<char>> {
        Seq::new(self.templates@.len(), |i: int| self.templates@[i].name@)
    }

    /// No name occurs twice.
    pub open spec fn well_formed(&self) -> bool {
        forall|i: int, j: int|
            0 <= i < j < self.names().len() ==> self.names()[i] != self.names()[j]
    }

    /// A registry with the built-in templates, of which there are none.
    pub fn new() -> (registry: Self)
        ensures
            registry.well_formed(),
            registry.names() == Seq::<Seq<char>>::empty(),
    {
        let mut registry = Self { templates: Vec::new() };
        registry.load_builtin_templates();
        assert(registry.names() =~= Seq::<Seq<char>>::empty());
        registry
    }

    /// Adds the built-in templates. There are none, so the registry stays as
    /// it is.
    pub fn load_builtin_templates(&mut self)
        ensures
            final(self).names() == old(self).names(),
            old(self).well_formed() ==> final(self).well_formed(),
    {
    }

    /// How many templates the registry holds.
    pub fn len(&self) -> (n: usize)
        ensures
            n == self.names().len(),
    {
        self.templates.len()
    }
}

/// The result of generating a device: the text, the name of the file it
/// belongs in, and what the device depends on.
#[derive(Debug)]
pub struct GeneratedCode {
    pub content: String,
    pub file_path: String,
    pub dependencies: Vec<String>,
}

/// Why a generation run failed.
#[derive(Debug)]
pub enum GenerationError {
    /// The validation of the generated text rejected it, for the given
    /// reason.
    Rejected(String),
}

impl GenerationError {
    /// The error in words.
    pub open spec fn message_model(&self) -> Seq<char> {
        match self {
            GenerationError::Rejected(reason) => "Generated code rejected: "@ + reason@,
        }
    }

    /// The error in words.
    pub fn message(&self) -> (text: String)
        ensures
            text@ == self.message_model(),
    {
        match self {
            GenerationError::Rejected(reason) => {
                let mut text = "Generated code rejected: ".to_string();
                text.append(reason.as_str());
                text
            },
        }
    }
}

/// The text of the file generated for a device.
pub open spec fn device_file_text(
    config: GenerationConfig,
    imports: Seq<Seq<char>>,
    device: DeviceModel,
) -> Seq<char> {
    lines_text(config, file_lines(config.generate_docs, imports, device))
}

/// What generating a device gives: the file's text, a file name made of the
/// device's name and the extension `.dml`, and the device's dependencies
/// unchanged.
pub open spec fn generated_from(
    config: GenerationConfig,
    imports: Seq<Seq<char>>,
    device: DeviceModel,
    generated: GeneratedCode,
) -> bool {
    &&& generated.content@ == device_file_text(config, imports, device)
    &&& generated.file_path@ == device.name + ".dml"@
    &&& generated.dependencies.deep_view() == device.dependencies
}

/// What a generation run returns once the generated code has been judged:
/// the error of the verdict where validation is switched on and the verdict
/// is an error, the generated code in every other case.
pub open spec fn concluded(
    config: GenerationConfig,
    generated: GeneratedCode,
    verdict: Result<(), GenerationError>,
) -> Result<GeneratedCode, GenerationError> {
    match verdict {
        Err(error) => if config.validate_output {
            Err(error)
        } else {
            Ok(generated)
        },
        Ok(_) => Ok(generated),
    }
}

fn copy_names(names: &Vec<String>) -> (copy: Vec<String>)
    ensures
        copy.deep_view() == names.deep_view(),
{
    let mut copy: Vec<String> = Vec::new();
    let mut i: usize = 0;
    while i < names.len()
        invariant
            i <= names@.len(),
            copy@.len() == i,
            forall|j: int| 0 <= j < i ==> copy@[j]@ == names@[j]@,
        decreases names@.len() - i,
    {
        copy.push(names[i].clone());
        i = i + 1;
    }
    assert(copy.deep_view() =~= names.deep_view());
    copy
}

fn parameter_list_text(parameters: &Vec<ParameterSpec>) -> (text: String)
    ensures
        text@ == parameter_list(parameters.deep_view()),
{
    let ghost all = parameters.deep_view();
    let mut text = String::new();
    if parameters.len() > 0 {
        text.append("(");
        let ghost before = text@;
        let mut i: usize = 0;
        assert(text@ =~= before + parameters_text(all.take(0)));
        while i < parameters.len()
            invariant
                i <= parameters@.len(),
                all == parameters.deep_view(),
                text@ == before + parameters_text(all.take(i as int)),
            decreases parameters@.len() - i,
        {
            let ghost upto = all.take(i + 1);
            proof {
                assert(upto.drop_last() =~= all.take(i as int));
                assert(upto.last() == parameters@[i as int]@);
            }
            if i > 0 {
                text.append(", ");
            }
            text.append(parameters[i].name.as_str());
            text.append(": ");
            text.append(parameters[i].param_type.as_str());
            assert(text@ =~= before + parameters_text(upto));
            i = i + 1;
        }
        assert(all.take(i as int) =~= all);
        text.append(")");
    }
    assert(text@ =~= parameter_list(all));
    text
}

fn register_header_text(register: &RegisterSpec) -> (text: String)
    ensures
        text@ == register_header(register@),
{
    let mut text = "register ".to_string();
    text.append(register.name.as_str());
    text.append(" size ");
    text.append(decimal_text(register.size).as_str());
    match &register.offset {
        Some(offset) => {
            text.append(" @ ");
            text.append(offset.as_str());
        },
        None => {},
    }
    text.append(" {");
    assert(text@ =~= register_header(register@));
    text
}

fn field_declaration_text(field: &FieldSpec) -> (text: String)
    ensures
        text@ == field_declaration(field@),
{
    let mut text = "field ".to_string();
    text.append(field.name.as_str());
    text.append(" @ [");
    text.append(field.bits.as_str());
    text.append("]");
    match &field.access {
        Some(access) => {
            text.append(" access ");
            text.append(access.as_str());
        },
        None => {},
    }
    text.append(";");
    assert(text@ =~= field_declaration(field@));
    text
}

fn device_declaration_text(device: &DeviceSpec) -> (text: String)
    ensures
        text@ == device_declaration(device@),
{
    let mut text = "device ".to_string();
    text.append(device.name.as_str());
    match &device.base_template {
        Some(base) => {
            text.append(" : ");
            text.append(base.as_str());
        },
        None => {},
    }
    text.append(" {");
    assert(text@ =~= device_declaration(device@));
    text
}

fn signature_text(method: &MethodSpec) -> (text: String)
    ensures
        text@ == method_signature(method@),
{
    let mut text = "method ".to_string();
    text.append(method.name.as_str());
    text.append(parameter_list_text(&method.parameters).as_str());
    match &method.return_type {
        Some(return_type) => {
            text.append(" -> ");
            text.append(return_type.as_str());
        },
        None => {},
    }
    text.append(" {");
    assert(text@ =~= method_signature(method@));
    text
}

/// The DML code generator.
pub struct DMLGenerator {
    pub context: GenerationContext,
    pub templates: TemplateRegistry,
}

impl DMLGenerator {
    /// A generator that works in `context`.
    pub fn new(context: GenerationContext) -> (generator: Self)
        ensures
            generator.context == context,
            generator.templates.names() == Seq::<Seq<char>>::empty(),
    {
        Self { context, templates: TemplateRegistry::new() }
    }

    /// One step of indentation as a string.
    pub fn get_indent(&self) -> (indent: String)
        ensures
            indent@ == indent_unit(self.context.config.indent_style),
    {
        match self.context.config.indent_style {
            IndentStyle::Spaces(n) => repeat_space(n),
            IndentStyle::Tabs => {
                proof {
                    reveal_strlit("\t");
                }
                let tab = "\t".to_string();
                assert(tab@ =~= seq!['\t']);
                tab
            },
        }
    }

    fn put_line(&self, code: &mut String, kind: LineKind, content: &str)
        ensures
            final(code)@ == old(code)@ + line_text(
                self.context.config,
                Line { kind, content: content@ },
            ),
    {
        match kind {
            LineKind::Top => {},
            LineKind::Member => {
                let unit = self.get_indent();
                code.append(unit.as_str());
            },
            LineKind::Field => {
                proof {
                    reveal_strlit("        ");
                }
                assert("        "@ =~= spaces(8));
                code.append("        ");
            },
            LineKind::Body => {
                let unit = self.get_indent();
                code.append(unit.as_str());
                code.append(unit.as_str());
            },
        }
        code.append(content);
        match self.context.config.line_ending {
            LineEnding::Unix => {
                proof {
                    reveal_strlit("\n");
                }
                assert("\n"@ =~= seq!['\n']);
                code.append("\n");
            },
            LineEnding::Windows => {
                proof {
                    reveal_strlit("\r\n");
                }
                assert("\r\n"@ =~= seq!['\r', '\n']);
                code.append("\r\n");
            },
        }
        assert(code@ =~= old(code)@ + line_text(
            self.context.config,
            Line { kind, content: content@ },
        ));
    }

    fn put_doc(&self, code: &mut String, kind: LineKind, documentation: &Option<String>)
        ensures
            final(code)@ == old(code)@ + lines_text(
                self.context.config,
                doc_lines(self.context.config.generate_docs, kind, documentation.deep_view()),
            ),
    {
        let ghost config = self.context.config;
        let ghost lines = doc_lines(config.generate_docs, kind, documentation.deep_view());
        if self.context.config.generate_docs {
            match documentation {
                Some(text) => {
                    let mut content = "/// ".to_string();
                    content.append(text.as_str());
                    self.put_line(code, kind, content.as_str());
                    proof {
                        let line = Line { kind, content: "/// "@ + text@ };
                        lemma_lines_text_push(config, Seq::empty(), line);
                        assert(lines =~= Seq::<Line>::empty().push(line));
                        assert(code@ =~= old(code)@ + lines_text(config, lines));
                    }
                },
                None => {
                    assert(code@ =~= old(code)@ + lines_text(config, lines));
                },
            }
        } else {
            assert(code@ =~= old(code)@ + lines_text(config, lines));
        }
    }

    fn put_method(&self, code: &mut String, method: &MethodSpec)
        ensures
            final(code)@ == old(code)@ + lines_text(
                self.context.config,
                method_lines(self.context.config.generate_docs, method@),
            ),
    {
        let ghost config = self.context.config;
        let ghost docs = doc_lines(
            config.generate_docs,
            LineKind::Member,
            method@.documentation,
        );
        self.put_doc(code, LineKind::Member, &method.documentation);
        let signature = signature_text(method);
        self.put_line(code, LineKind::Member, signature.as_str());
        match &method.body {
            Some(body) => {
                self.put_line(code, LineKind::Body, body.as_str());
            },
            None => {
                self.put_line(code, LineKind::Body, "// TODO: Implement method");
            },
        }
        self.put_line(code, LineKind::Member, "}");
        proof {
            let l1 = Line { kind: LineKind::Member, content: method_signature(method@) };
            let l2 = Line { kind: LineKind::Body, content: method_body(method@) };
            let l3 = Line { kind: LineKind::Member, content: "}"@ };
            lemma_lines_text_push(config, docs, l1);
            lemma_lines_text_push(config, docs.push(l1), l2);
            lemma_lines_text_push(config, docs.push(l1).push(l2), l3);
            assert(method_lines(config.generate_docs, method@) =~= docs.push(l1).push(l2).push(
                l3,
            ));
            assert(code@ =~= old(code)@ + lines_text(
                config,
                method_lines(config.generate_docs, method@),
            ));
        }
    }

    /// Renders a method: an optional documentation comment, the signature,
    /// the body (or a placeholder comment) and the closing brace.
    pub fn generate_method(&self, method_spec: &MethodSpec) -> (result: Result<
        String,
        GenerationError,
    >)
        ensures
            result is Ok,
            result->Ok_0@ == lines_text(
                self.context.config,
                method_lines(self.context.config.generate_docs, method_spec@),
            ),
    {
        let mut code = String::new();
        self.put_method(&mut code, method_spec);
        assert(code@ =~= lines_text(
            self.context.config,
            method_lines(self.context.config.generate_docs, method_spec@),
        ));
        Ok(code)
    }
    fn put_methods(&self, code: &mut String, methods: &Vec<MethodSpec>)
        ensures
            final(code)@ == old(code)@ + lines_text(
                self.context.config,
                methods_lines(self.context.config.generate_docs, methods.deep_view()),
            ),
    {
        let ghost config = self.context.config;
        let ghost all = methods.deep_view();
        let mut i: usize = 0;
        assert(code@ =~= old(code)@ + lines_text(
            config,
            methods_lines(config.generate_docs, all.take(0)),
        ));
        while i < methods.len()
            invariant
                i <= methods@.len(),
                config == self.context.config,
                all == methods.deep_view(),
                code@ == old(code)@ + lines_text(
                    config,
                    methods_lines(config.generate_docs, all.take(i as int)),
                ),
            decreases methods@.len() - i,
        {
            self.put_method(code, &methods[i]);
            proof {
                let upto = all.take(i + 1);
                assert(upto.drop_last() =~= all.take(i as int));
                assert(upto.last() == methods@[i as int]@);
                lemma_lines_text_concat(
                    config,
                    methods_lines(config.generate_docs, all.take(i as int)),
                    method_lines(config.generate_docs, methods@[i as int]@),
                );
                assert(code@ =~= old(code)@ + lines_text(
                    config,
                    methods_lines(config.generate_docs, upto),
                ));
            }
            i = i + 1;
        }
        assert(all.take(i as int) =~= all);
    }

    fn put_field(&self, code: &mut String, field: &FieldSpec)
        ensures
            final(code)@ == old(code)@ + lines_text(
                self.context.config,
                field_lines(self.context.config.generate_docs, field@),
            ),
    {
        let ghost config = self.context.config;
        let ghost docs = doc_lines(config.generate_docs, LineKind::Field, field@.documentation);
        self.put_doc(code, LineKind::Field, &field.documentation);
        let declaration = field_declaration_text(field);
        self.put_line(code, LineKind::Field, declaration.as_str());
        proof {
            let line = Line { kind: LineKind::Field, content: field_declaration(field@) };
            lemma_lines_text_push(config, docs, line);
            assert(field_lines(config.generate_docs, field@) =~= docs.push(line));
            assert(code@ =~= old(code)@ + lines_text(
                config,
                field_lines(config.generate_docs, field@),
            ));
        }
    }

    fn put_fields(&self, code: &mut String, fields: &Vec<FieldSpec>)
        ensures
            final(code)@ == old(code)@ + lines_text(
                self.context.config,
                fields_lines(self.context.config.generate_docs, fields.deep_view()),
            ),
    {
        let ghost config = self.context.config;
        let ghost all = fields.deep_view();
        let mut i: usize = 0;
        assert(code@ =~= old(code)@ + lines_text(
            config,
            fields_lines(config.generate_docs, all.take(0)),
        ));
        while i < fields.len()
            invariant
                i <= fields@.len(),
                config == self.context.config,
                all == fields.deep_view(),
                code@ == old(code)@ + lines_text(
                    config,
                    fields_lines(config.generate_docs, all.take(i as int)),
                ),
            decreases fields@.len() - i,
        {
            self.put_field(code, &fields[i]);
            proof {
                let upto = all.take(i + 1);
                assert(upto.drop_last() =~= all.take(i as int));
                assert(upto.last() == fields@[i as int]@);
                lemma_lines_text_concat(
                    config,
                    fields_lines(config.generate_docs, all.take(i as int)),
                    field_lines(config.generate_docs, fields@[i as int]@),
                );
                assert(code@ =~= old(code)@ + lines_text(
                    config,
                    fields_lines(config.generate_docs, upto),
                ));
            }
            i = i + 1;
        }
        assert(all.take(i as int) =~= all);
    }

    fn put_register(&self, code: &mut String, register: &RegisterSpec)
        ensures
            final(code)@ == old(code)@ + lines_text(
                self.context.config,
                register_lines(self.context.config.generate_docs, register@),
            ),
    {
        let ghost config = self.context.config;
        let ghost docs = doc_lines(
            config.generate_docs,
            LineKind::Member,
            register@.documentation,
        );
        self.put_doc(code, LineKind::Member, &register.documentation);
        let header = register_header_text(register);
        self.put_line(code, LineKind::Member, header.as_str());
        self.put_fields(code, &register.fields);
        self.put_methods(code, &register.methods);
        self.put_line(code, LineKind::Member, "}");
        proof {
            let opening = Line { kind: LineKind::Member, content: register_header(register@) };
            let closing = Line { kind: LineKind::Member, content: "}"@ };
            let fields = fields_lines(config.generate_docs, register@.fields);
            let methods = methods_lines(config.generate_docs, register@.methods);
            lemma_lines_text_push(config, docs, opening);
            lemma_lines_text_concat(config, docs.push(opening), fields);
            lemma_lines_text_concat(config, docs.push(opening) + fields, methods);
            lemma_lines_text_push(config, docs.push(opening) + fields + methods, closing);
            assert(register_lines(config.generate_docs, register@) =~= (docs.push(opening)
                + fields + methods).push(closing));
            assert(code@ =~= old(code)@ + lines_text(
                config,
                register_lines(config.generate_docs, register@),
            ));
        }
    }

    fn put_bank(&self, code: &mut String, bank: &BankSpec)
        ensures
            final(code)@ == old(code)@ + lines_text(
                self.context.config,
                bank_lines(self.context.config.generate_docs, bank@),
            ),
    {
        let ghost config = self.context.config;
        let ghost docs = doc_lines(config.generate_docs, LineKind::Member, bank@.documentation);
        let ghost all = bank.registers.deep_view();
        self.put_doc(code, LineKind::Member, &bank.documentation);
        let mut header = "bank ".to_string();
        header.append(bank.name.as_str());
        header.append(" {");
        self.put_line(code, LineKind::Member, header.as_str());
        let ghost opened = code@;
        let mut i: usize = 0;
        assert(code@ =~= opened + lines_text(
            config,
            registers_lines(config.generate_docs, all.take(0)),
        ));
        while i < bank.registers.len()
            invariant
                i <= bank.registers@.len(),
                config == self.context.config,
                all == bank.registers.deep_view(),
                code@ == opened + lines_text(
                    config,
                    registers_lines(config.generate_docs, all.take(i as int)),
                ),
            decreases bank.registers@.len() - i,
        {
            self.put_register(code, &bank.registers[i]);
            proof {
                let upto = all.take(i + 1);
                assert(upto.drop_last() =~= all.take(i as int));
                assert(upto.last() == bank.registers@[i as int]@);
                lemma_lines_text_concat(
                    config,
                    registers_lines(config.generate_docs, all.take(i as int)),
                    register_lines(config.generate_docs, bank.registers@[i as int]@),
                );
                assert(code@ =~= opened + lines_text(
                    config,
                    registers_lines(config.generate_docs, upto),
                ));
            }
            i = i + 1;
        }
        assert(all.take(i as int) =~= all);
        self.put_line(code, LineKind::Member, "}");
        proof {
            let opening = Line {
                kind: LineKind::Member,
                content: "bank "@ + bank@.name + " {"@,
            };
            let closing = Line { kind: LineKind::Member, content: "}"@ };
            let registers = registers_lines(config.generate_docs, all);
            assert(header@ =~= opening.content);
            lemma_lines_text_push(config, docs, opening);
            lemma_lines_text_concat(config, docs.push(opening), registers);
            lemma_lines_text_push(config, docs.push(opening) + registers, closing);
            assert(bank_lines(config.generate_docs, bank@) =~= (docs.push(opening)
                + registers).push(closing));
            assert(code@ =~= old(code)@ + lines_text(
                config,
                bank_lines(config.generate_docs, bank@),
            ));
        }
    }

    fn put_interface(&self, code: &mut String, interface: &InterfaceSpec)
        ensures
            final(code)@ == old(code)@ + line_text(
                self.context.config,
                interface_line(interface@),
            ),
    {
        let mut content = "implement ".to_string();
        content.append(interface.name.as_str());
        content.append(";");
        assert(content@ =~= interface_line(interface@).content);
        self.put_line(code, LineKind::Member, content.as_str());
    }

    fn put_header(&self, code: &mut String)
        ensures
            final(code)@ == old(code)@ + lines_text(
                self.context.config,
                header_lines(self.context.imports.deep_view()),
            ),
    {
        let ghost config = self.context.config;
        let ghost all = self.context.imports.deep_view();
        let ghost version = Line { kind: LineKind::Top, content: "dml 1.4;"@ };
        let ghost blank = Line { kind: LineKind::Top, content: Seq::<char>::empty() };
        let ghost start = seq![version, blank];
        proof {
            reveal_strlit("");
        }
        assert(""@ =~= Seq::<char>::empty());
        self.put_line(code, LineKind::Top, "dml 1.4;");
        self.put_line(code, LineKind::Top, "");
        proof {
            lemma_lines_text_push(config, Seq::empty(), version);
            lemma_lines_text_push(config, Seq::<Line>::empty().push(version), blank);
            assert(start =~= Seq::<Line>::empty().push(version).push(blank));
            assert(code@ =~= old(code)@ + lines_text(config, start));
            assert(imports_lines(all.take(0)) =~= Seq::<Line>::empty());
            assert(start + imports_lines(all.take(0)) =~= start);
        }
        let mut i: usize = 0;
        while i < self.context.imports.len()
            invariant
                i <= self.context.imports@.len(),
                config == self.context.config,
                all == self.context.imports.deep_view(),
                code@ == old(code)@ + lines_text(config, start + imports_lines(all.take(i as int))),
            decreases self.context.imports@.len() - i,
        {
            let mut content = "import \"".to_string();
            content.append(self.context.imports[i].as_str());
            content.append("\";");
            self.put_line(code, LineKind::Top, content.as_str());
            proof {
                let upto = all.take(i + 1);
                let line = import_line(self.context.imports@[i as int]@);
                assert(upto.drop_last() =~= all.take(i as int));
                assert(upto.last() == self.context.imports@[i as int]@);
                assert(content@ =~= line.content);
                lemma_lines_text_push(config, start + imports_lines(all.take(i as int)), line);
                assert(start + imports_lines(upto) =~= (start + imports_lines(
                    all.take(i as int),
                )).push(line));
            }
            i = i + 1;
        }
        assert(all.take(i as int) =~= all);
        if self.context.imports.len() > 0 {
            self.put_line(code, LineKind::Top, "");
            proof {
                lemma_lines_text_push(config, start + imports_lines(all), blank);
                assert(header_lines(all) =~= (start + imports_lines(all)).push(blank));
            }
        } else {
            assert(header_lines(all) =~= start + imports_lines(all));
        }
    }

    fn put_device_opening(&self, code: &mut String, device: &DeviceSpec)
        ensures
            final(code)@ == old(code)@ + lines_text(
                self.context.config,
                device_opening(self.context.config.generate_docs, device@),
            ),
    {
        let ghost config = self.context.config;
        let ghost docs = doc_lines(config.generate_docs, LineKind::Top, device@.documentation);
        self.put_doc(code, LineKind::Top, &device.documentation);
        let declaration = device_declaration_text(device);
        self.put_line(code, LineKind::Top, declaration.as_str());
        proof {
            let line = Line { kind: LineKind::Top, content: device_declaration(device@) };
            lemma_lines_text_push(config, docs, line);
            assert(device_opening(config.generate_docs, device@) =~= docs.push(line));
        }
    }

    fn put_device(&self, code: &mut String, device: &DeviceSpec)
        ensures
            final(code)@ == old(code)@ + lines_text(
                self.context.config,
                device_lines(self.context.config.generate_docs, device@),
            ),
    {
        let ghost config = self.context.config;
        let ghost opening = device_opening(config.generate_docs, device@);
        let ghost banks = device.banks.deep_view();
        let ghost interfaces = device.interfaces.deep_view();
        self.put_device_opening(code, device);
        proof {
            assert(banks_lines(config.generate_docs, banks.take(0)) =~= Seq::<Line>::empty());
            assert(opening + banks_lines(config.generate_docs, banks.take(0)) =~= opening);
        }
        let mut i: usize = 0;
        while i < device.banks.len()
            invariant
                i <= device.banks@.len(),
                config == self.context.config,
                banks == device.banks.deep_view(),
                code@ == old(code)@ + lines_text(
                    config,
                    opening + banks_lines(config.generate_docs, banks.take(i as int)),
                ),
            decreases device.banks@.len() - i,
        {
            self.put_bank(code, &device.banks[i]);
            proof {
                let upto = banks.take(i + 1);
                let sofar = opening + banks_lines(config.generate_docs, banks.take(i as int));
                let next = bank_lines(config.generate_docs, device.banks@[i as int]@);
                assert(upto.drop_last() =~= banks.take(i as int));
                assert(upto.last() == device.banks@[i as int]@);
                lemma_lines_text_concat(config, sofar, next);
                assert(opening + banks_lines(config.generate_docs, upto) =~= sofar + next);
            }
            i = i + 1;
        }
        assert(banks.take(i as int) =~= banks);
        let ghost with_banks = opening + banks_lines(config.generate_docs, banks);
        proof {
            assert(interfaces_lines(interfaces.take(0)) =~= Seq::<Line>::empty());
            assert(with_banks + interfaces_lines(interfaces.take(0)) =~= with_banks);
        }
        let mut j: usize = 0;
        while j < device.interfaces.len()
            invariant
                j <= device.interfaces@.len(),
                config == self.context.config,
                interfaces == device.interfaces.deep_view(),
                code@ == old(code)@ + lines_text(
                    config,
                    with_banks + interfaces_lines(interfaces.take(j as int)),
                ),
            decreases device.interfaces@.len() - j,
        {
            self.put_interface(code, &device.interfaces[j]);
            proof {
                let upto = interfaces.take(j + 1);
                let sofar = with_banks + interfaces_lines(interfaces.take(j as int));
                let line = interface_line(device.interfaces@[j as int]@);
                assert(upto.drop_last() =~= interfaces.take(j as int));
                assert(upto.last() == device.interfaces@[j as int]@);
                lemma_lines_text_push(config, sofar, line);
                assert(with_banks + interfaces_lines(upto) =~= sofar.push(line));
            }
            j = j + 1;
        }
        assert(interfaces.take(j as int) =~= interfaces);
        self.put_methods(code, &device.methods);
        self.put_line(code, LineKind::Top, "}");
        proof {
            let with_interfaces = with_banks + interfaces_lines(interfaces);
            let methods = methods_lines(config.generate_docs, device@.methods);
            let closing = Line { kind: LineKind::Top, content: "}"@ };
            lemma_lines_text_concat(config, with_interfaces, methods);
            lemma_lines_text_push(config, with_interfaces + methods, closing);
            assert(device_lines(config.generate_docs, device@) =~= (with_interfaces
                + methods).push(closing));
        }
    }

    /// Renders a register: an optional documentation comment, the header
    /// with the offset where there is one, the fields, the methods and the
    /// closing brace. Fields and methods keep their order.
    pub fn generate_register(&self, register_spec: &RegisterSpec) -> (result: Result<
        String,
        GenerationError,
    >)
        ensures
            result is Ok,
            result->Ok_0@ == lines_text(
                self.context.config,
                register_lines(self.context.config.generate_docs, register_spec@),
            ),
    {
        let mut code = String::new();
        self.put_register(&mut code, register_spec);
        assert(code@ =~= lines_text(
            self.context.config,
            register_lines(self.context.config.generate_docs, register_spec@),
        ));
        Ok(code)
    }

    /// Renders a bank: an optional documentation comment, the header, the
    /// registers in order and the closing brace.
    pub fn generate_bank(&self, bank_spec: &BankSpec) -> (result: Result<String, GenerationError>)
        ensures
            result is Ok,
            result->Ok_0@ == lines_text(
                self.context.config,
                bank_lines(self.context.config.generate_docs, bank_spec@),
            ),
    {
        let mut code = String::new();
        self.put_bank(&mut code, bank_spec);
        assert(code@ =~= lines_text(
            self.context.config,
            bank_lines(self.context.config.generate_docs, bank_spec@),
        ));
        Ok(code)
    }

    /// Renders a field: an optional documentation comment and the
    /// declaration, with the access mode where there is one.
    pub fn generate_field(&self, field_spec: &FieldSpec) -> (result: Result<
        String,
        GenerationError,
    >)
        ensures
            result is Ok,
            result->Ok_0@ == lines_text(
                self.context.config,
                field_lines(self.context.config.generate_docs, field_spec@),
            ),
    {
        let mut code = String::new();
        self.put_field(&mut code, field_spec);
        assert(code@ =~= lines_text(
            self.context.config,
            field_lines(self.context.config.generate_docs, field_spec@),
        ));
        Ok(code)
    }

    /// Renders an interface: the single line `implement NAME;`, one level
    /// deep.
    pub fn generate_interface(&self, interface_spec: &InterfaceSpec) -> (result: Result<
        String,
        GenerationError,
    >)
        ensures
            result is Ok,
            result->Ok_0@ == line_text(self.context.config, interface_line(interface_spec@)),
    {
        let mut code = String::new();
        self.put_interface(&mut code, interface_spec);
        assert(code@ =~= line_text(self.context.config, interface_line(interface_spec@)));
        Ok(code)
    }

    /// Renders the header of a file: the language version and the imports
    /// of the context.
    pub fn generate_header(&self) -> (result: Result<String, GenerationError>)
        ensures
            result is Ok,
            result->Ok_0@ == lines_text(
                self.context.config,
                header_lines(self.context.imports.deep_view()),
            ),
    {
        let mut code = String::new();
        self.put_header(&mut code);
        assert(code@ =~= lines_text(
            self.context.config,
            header_lines(self.context.imports.deep_view()),
        ));
        Ok(code)
    }

    /// Renders the first lines of a device: an optional documentation
    /// comment and the declaration, with the base template where there is
    /// one.
    pub fn generate_device_declaration(&self, device_spec: &DeviceSpec) -> (result: Result<
        String,
        GenerationError,
    >)
        ensures
            result is Ok,
            result->Ok_0@ == lines_text(
                self.context.config,
                device_opening(self.context.config.generate_docs, device_spec@),
            ),
    {
        let mut code = String::new();
        self.put_device_opening(&mut code, device_spec);
        assert(code@ =~= lines_text(
            self.context.config,
            device_opening(self.context.config.generate_docs, device_spec@),
        ));
        Ok(code)
    }

    /// Renders a device without judging the result: header, declaration,
    /// banks, interfaces, methods and closing brace, in this order.
    pub fn render_device(&self, device_spec: &DeviceSpec) -> (generated: GeneratedCode)
        ensures
            generated_from(
                self.context.config,
                self.context.imports.deep_view(),
                device_spec@,
                generated,
            ),
    {
        let ghost config = self.context.config;
        let mut code = String::new();
        self.put_header(&mut code);
        self.put_device(&mut code, device_spec);
        proof {
            lemma_lines_text_concat(
                config,
                header_lines(self.context.imports.deep_view()),
                device_lines(config.generate_docs, device_spec@),
            );
            assert(code@ =~= device_file_text(
                config,
                self.context.imports.deep_view(),
                device_spec@,
            ));
        }
        let mut file_path = device_spec.name.clone();
        file_path.append(".dml");
        GeneratedCode {
            content: code,
            file_path,
            dependencies: copy_names(&device_spec.dependencies),
        }
    }

    /// Judges generated code. Nothing is checked yet: every text is
    /// accepted.
    pub fn validate_generated_code(&self, generated: &GeneratedCode) -> (verdict: Result<
        (),
        GenerationError,
    >)
        ensures
            verdict is Ok,
    {
        Ok(())
    }

    /// Ends a generation run with the verdict on its result. A rejection is
    /// returned as the error where validation is switched on, and nothing of
    /// the generated code comes with it.
    pub fn conclude(
        &self,
        generated: GeneratedCode,
        verdict: Result<(), GenerationError>,
    ) -> (result: Result<GeneratedCode, GenerationError>)
        ensures
            result == concluded(self.context.config, generated, verdict),
    {
        match verdict {
            Err(error) => {
                if self.context.config.validate_output {
                    Err(error)
                } else {
                    Ok(generated)
                }
            },
            Ok(_) => Ok(generated),
        }
    }

    /// Generates a complete device. Where validation is switched on the
    /// result is judged before it is returned.
    pub fn generate_device(&self, device_spec: &DeviceSpec) -> (result: Result<
        GeneratedCode,
        GenerationError,
    >)
        ensures
            result is Ok,
            generated_from(
                self.context.config,
                self.context.imports.deep_view(),
                device_spec@,
                result->Ok_0,
            ),
    {
        let generated = self.render_device(device_spec);
        if self.context.config.validate_output {
            let verdict = self.validate_generated_code(&generated);
            self.conclude(generated, verdict)
        } else {
            Ok(generated)
        }
    }
}

} // verus!
