//! The layout of generated source text, as mathematics.
//!
//! A rendered block is a sequence of lines. A line has a kind, which fixes its
//! indentation, and a content, which starts where the indentation ends. The
//! text of a block is the concatenation of its lines, each written as
//! indentation, content and line ending. The functions here say which lines
//! each part of a device description gives; the generation engine is verified
//! to write exactly that text.

use vstd::prelude::*;
use crate::generation::{GenerationConfig, IndentStyle, LineEnding};
use crate::model::{
    BankModel, DeviceModel, FieldModel, InterfaceModel, MethodModel, ParameterModel,
    RegisterModel,
};
use crate::text::{decimal, spaces};

verus! {

/// Where a line stands in the nesting of a device.
#[derive(Debug, Clone, Copy, PartialEq, Eq)]
pub enum LineKind {
    /// The device's own lines, and the header before it: nesting depth 0.
    Top,
    /// Lines of banks, registers, methods and interfaces: nesting depth 1.
    Member,
    /// Lines of fields: nesting depth 2, always eight spaces wide.
    Field,
    /// The body of a method: nesting depth 2.
    Body,
}

/// A line of output: its kind and what follows the indentation.
pub struct Line {
    pub kind: LineKind,
    pub content: Seq<char>,
}

/// The nesting depth of a kind of line.
pub open spec fn depth(kind: LineKind) -> nat {
    match kind {
        LineKind::Top => 0,
        LineKind::Member => 1,
        LineKind::Field => 2,
        LineKind::Body => 2,
    }
}

/// One step of indentation: the configured number of spaces, or one tab.
pub open spec fn indent_unit(style: IndentStyle) -> Seq<char> {
    match style {
        IndentStyle::Spaces(n) => spaces(n as nat),
        IndentStyle::Tabs => seq!['\t'],
    }
}

/// The characters that end a line.
pub open spec fn line_ending(ending: LineEnding) -> Seq<char> {
    match ending {
        LineEnding::Unix => seq!['\n'],
        LineEnding::Windows => seq!['\r', '\n'],
    }
}

/// The indentation of a line: one unit for each level of nesting, except
/// that a field is always indented by eight spaces.
pub open spec fn indent_of(config: GenerationConfig, kind: LineKind) -> Seq<char> {
    match kind {
        LineKind::Top => Seq::empty(),
        LineKind::Member => indent_unit(config.indent_style),
        LineKind::Field => spaces(8),
        LineKind::Body => indent_unit(config.indent_style) + indent_unit(config.indent_style),
    }
}

/// A line as text: indentation, content, line ending.
pub open spec fn line_text(config: GenerationConfig, line: Line) -> Seq<char> {
    indent_of(config, line.kind) + line.content + line_ending(config.line_ending)
}

/// The text of a sequence of lines.
pub open spec fn lines_text(config: GenerationConfig, lines: Seq<Line>) -> Seq<char>
    decreases lines.len(),
{
    if lines.len() == 0 {
        Seq::empty()
    } else {
        lines_text(config, lines.drop_last()) + line_text(config, lines.last())
    }
}

/// The documentation comment of a declaration: one line of the declaration's
/// kind, present where documentation is switched on and the declaration has
/// any.
pub open spec fn doc_lines(docs: bool, kind: LineKind, documentation: Option<Seq<char>>) -> Seq<
    Line,
> {
    match documentation {
        Some(text) => if docs {
            seq![Line { kind, content: "/// "@ + text }]
        } else {
            Seq::empty()
        },
        None => Seq::empty(),
    }
}

/// A parameter as `name: type`.
pub open spec fn parameter_text(parameter: ParameterModel) -> Seq<char> {
    parameter.name + ": "@ + parameter.param_type
}

/// Parameters joined by `, `.
pub open spec fn parameters_text(parameters: Seq<ParameterModel>) -> Seq<char>
    decreases parameters.len(),
{
    if parameters.len() == 0 {
        Seq::empty()
    } else if parameters.len() == 1 {
        parameter_text(parameters[0])
    } else {
        parameters_text(parameters.drop_last()) + ", "@ + parameter_text(parameters.last())
    }
}

/// The parameter list of a signature: nothing for a method without
/// parameters, else the parameters in parentheses.
pub open spec fn parameter_list(parameters: Seq<ParameterModel>) -> Seq<char> {
    if parameters.len() == 0 {
        Seq::empty()
    } else {
        "("@ + parameters_text(parameters) + ")"@
    }
}

/// An optional fragment: the separator and the text where the text is
/// present, nothing where it is absent.
pub open spec fn optional(separator: Seq<char>, text: Option<Seq<char>>) -> Seq<char> {
    match text {
        Some(t) => separator + t,
        None => Seq::empty(),
    }
}

/// The signature line of a method, up to and including the opening brace.
pub open spec fn method_signature(method: MethodModel) -> Seq<char> {
    "method "@ + method.name + parameter_list(method.parameters) + optional(
        " -> "@,
        method.return_type,
    ) + " {"@
}

/// The body line of a method: the body as it stands, or a placeholder
/// comment.
pub open spec fn method_body(method: MethodModel) -> Seq<char> {
    match method.body {
        Some(body) => body,
        None => "// TODO: Implement method"@,
    }
}

/// The lines of a method.
pub open spec fn method_lines(docs: bool, method: MethodModel) -> Seq<Line> {
    doc_lines(docs, LineKind::Member, method.documentation) + seq![
        Line { kind: LineKind::Member, content: method_signature(method) },
        Line { kind: LineKind::Body, content: method_body(method) },
        Line { kind: LineKind::Member, content: "}"@ },
    ]
}

/// The lines of a list of methods, in order.
pub open spec fn methods_lines(docs: bool, methods: Seq<MethodModel>) -> Seq<Line>
    decreases methods.len(),
{
    if methods.len() == 0 {
        Seq::empty()
    } else {
        methods_lines(docs, methods.drop_last()) + method_lines(docs, methods.last())
    }
}

/// The declaration line of a field.
pub open spec fn field_declaration(field: FieldModel) -> Seq<char> {
    "field "@ + field.name + " @ ["@ + field.bits + "]"@ + optional(" access "@, field.access)
        + ";"@
}

/// The lines of a field.
pub open spec fn field_lines(docs: bool, field: FieldModel) -> Seq<Line> {
    doc_lines(docs, LineKind::Field, field.documentation) + seq![
        Line { kind: LineKind::Field, content: field_declaration(field) },
    ]
}

/// The lines of a list of fields, in order.
pub open spec fn fields_lines(docs: bool, fields: Seq<FieldModel>) -> Seq<Line>
    decreases fields.len(),
{
    if fields.len() == 0 {
        Seq::empty()
    } else {
        fields_lines(docs, fields.drop_last()) + field_lines(docs, fields.last())
    }
}

/// The header line of a register, up to and including the opening brace.
pub open spec fn register_header(register: RegisterModel) -> Seq<char> {
    "register "@ + register.name + " size "@ + decimal(register.size) + optional(
        " @ "@,
        register.offset,
    ) + " {"@
}

/// The lines of a register: documentation, header, fields, methods, closing
/// brace.
pub open spec fn register_lines(docs: bool, register: RegisterModel) -> Seq<Line> {
    doc_lines(docs, LineKind::Member, register.documentation) + seq![
        Line { kind: LineKind::Member, content: register_header(register) },
    ] + fields_lines(docs, register.fields) + methods_lines(docs, register.methods) + seq![
        Line { kind: LineKind::Member, content: "}"@ },
    ]
}

/// The lines of a list of registers, in order.
pub open spec fn registers_lines(docs: bool, registers: Seq<RegisterModel>) -> Seq<Line>
    decreases registers.len(),
{
    if registers.len() == 0 {
        Seq::empty()
    } else {
        registers_lines(docs, registers.drop_last()) + register_lines(docs, registers.last())
    }
}

/// The lines of a bank: documentation, header, registers, closing brace.
pub open spec fn bank_lines(docs: bool, bank: BankModel) -> Seq<Line> {
    doc_lines(docs, LineKind::Member, bank.documentation) + seq![
        Line { kind: LineKind::Member, content: "bank "@ + bank.name + " {"@ },
    ] + registers_lines(docs, bank.registers) + seq![
        Line { kind: LineKind::Member, content: "}"@ },
    ]
}

/// The lines of a list of banks, in order.
pub open spec fn banks_lines(docs: bool, banks: Seq<BankModel>) -> Seq<Line>
    decreases banks.len(),
{
    if banks.len() == 0 {
        Seq::empty()
    } else {
        banks_lines(docs, banks.drop_last()) + bank_lines(docs, banks.last())
    }
}

/// The line that declares an interface.
pub open spec fn interface_line(interface: InterfaceModel) -> Line {
    Line { kind: LineKind::Member, content: "implement "@ + interface.name + ";"@ }
}

/// The lines of a list of interfaces, in order.
pub open spec fn interfaces_lines(interfaces: Seq<InterfaceModel>) -> Seq<Line>
    decreases interfaces.len(),
{
    if interfaces.len() == 0 {
        Seq::empty()
    } else {
        interfaces_lines(interfaces.drop_last()).push(interface_line(interfaces.last()))
    }
}

/// The declaration line of a device, up to and including the opening brace.
pub open spec fn device_declaration(device: DeviceModel) -> Seq<char> {
    "device "@ + device.name + optional(" : "@, device.base_template) + " {"@
}

/// The first lines of a device: documentation and declaration.
pub open spec fn device_opening(docs: bool, device: DeviceModel) -> Seq<Line> {
    doc_lines(docs, LineKind::Top, device.documentation) + seq![
        Line { kind: LineKind::Top, content: device_declaration(device) },
    ]
}

/// The lines of a device: documentation, declaration, banks, interfaces,
/// methods, closing brace.
pub open spec fn device_lines(docs: bool, device: DeviceModel) -> Seq<Line> {
    device_opening(docs, device) + banks_lines(docs, device.banks) + interfaces_lines(
        device.interfaces,
    ) + methods_lines(docs, device.methods) + seq![Line { kind: LineKind::Top, content: "}"@ }]
}

/// The line that imports a file.
pub open spec fn import_line(import: Seq<char>) -> Line {
    Line { kind: LineKind::Top, content: "import \""@ + import + "\";"@ }
}

/// The lines of a list of imports, in order.
pub open spec fn imports_lines(imports: Seq<Seq<char>>) -> Seq<Line>
    decreases imports.len(),
{
    if imports.len() == 0 {
        Seq::empty()
    } else {
        imports_lines(imports.drop_last()).push(import_line(imports.last()))
    }
}

/// An empty line.
pub open spec fn blank_line() -> Line {
    Line { kind: LineKind::Top, content: Seq::empty() }
}

/// The header of a file: the language version, an empty line, the imports,
/// and one more empty line where there is at least one import.
pub open spec fn header_lines(imports: Seq<Seq<char>>) -> Seq<Line> {
    seq![Line { kind: LineKind::Top, content: "dml 1.4;"@ }, blank_line()] + imports_lines(
        imports,
    ) + if imports.len() > 0 {
        seq![blank_line()]
    } else {
        Seq::empty()
    }
}

/// The lines of a generated file: header, then device.
pub open spec fn file_lines(docs: bool, imports: Seq<Seq<char>>, device: DeviceModel) -> Seq<
    Line,
> {
    header_lines(imports) + device_lines(docs, device)
}

/// Appending one line to a block appends its text.
pub proof fn lemma_lines_text_push(config: GenerationConfig, lines: Seq<Line>, line: Line)
    ensures
        lines_text(config, lines.push(line)) == lines_text(config, lines) + line_text(
            config,
            line,
        ),
{
    assert(lines.push(line).drop_last() =~= lines);
}

/// The text of two blocks one after the other is the concatenation of their
/// texts.
pub proof fn lemma_lines_text_concat(config: GenerationConfig, a: Seq<Line>, b: Seq<Line>)
    ensures
        lines_text(config, a + b) == lines_text(config, a) + lines_text(config, b),
    decreases b.len(),
{
    if b.len() == 0 {
        assert(a + b =~= a);
        assert(lines_text(config, a) + lines_text(config, b) =~= lines_text(config, a));
    } else {
        lemma_lines_text_concat(config, a, b.drop_last());
        assert((a + b).drop_last() =~= a + b.drop_last());
        assert((a + b).last() == b.last());
        assert(lines_text(config, a + b) =~= lines_text(config, a) + lines_text(config, b));
    }
}

} // verus!
