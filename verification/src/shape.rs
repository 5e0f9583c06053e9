//! The shape of the text of a device that sets no optional field.
//!
//! Such a text holds braces and separators only where a mandatory fragment
//! puts them, and where a name of the description itself holds one: one pair
//! of braces for the device and for each bank, register and method,
//! correctly nested; one `@` for each field; one `:` for each placeholder
//! comment of a method without a body; and no comma. Nothing is left behind
//! by what is absent: no empty parentheses, no arrow, no separator.
//!
//! Names are opaque to the engine. A brace in a name would count as a brace
//! of the text, so the law speaks of descriptions whose names hold none.

use vstd::prelude::*;
use crate::generation::{device_file_text, GenerationConfig};
use crate::layout::{
    bank_lines, banks_lines, blank_line, device_declaration, device_lines, device_opening,
    field_declaration, field_lines, fields_lines, header_lines, import_line, imports_lines,
    indent_of, indent_unit, interface_line, interfaces_lines, lemma_lines_text_concat,
    lemma_lines_text_push, line_ending, line_text, lines_text, method_lines, method_signature,
    methods_lines, register_header, register_lines, registers_lines, Line, LineKind,
};
use crate::laws::lemma_decimal_digits;
use crate::model::{
    BankModel, DeviceModel, FieldModel, InterfaceModel, MethodModel, RegisterModel,
};
use crate::text::{decimal, spaces};

verus! {

/// How often the character `c` occurs in `text`.
pub open spec fn tally(text: Seq<char>, c: char) -> nat
    decreases text.len(),
{
    if text.len() == 0 {
        0
    } else {
        tally(text.drop_last(), c) + if text.last() == c {
            1nat
        } else {
            0nat
        }
    }
}

/// Opening braces less closing braces.
pub open spec fn brace_depth(text: Seq<char>) -> int {
    tally(text, '{') - tally(text, '}')
}

/// No prefix of the text closes more braces than it opens, less `slack`.
pub open spec fn never_below(text: Seq<char>, slack: int) -> bool {
    forall|k: int| 0 <= k <= text.len() ==> brace_depth(#[trigger] text.take(k)) >= -slack
}

/// The braces of the text are correctly nested: every closing brace closes
/// an open one, and none is left open.
pub open spec fn well_nested(text: Seq<char>) -> bool {
    brace_depth(text) == 0 && never_below(text, 0)
}

/// The characters that the law counts: the braces and the separators.
pub open spec fn is_mark(c: char) -> bool {
    c == '{' || c == '}' || c == ',' || c == ':' || c == '@'
}

/// A text without braces.
pub open spec fn brace_free(text: Seq<char>) -> bool {
    forall|i: int| 0 <= i < text.len() ==> (#[trigger] text[i]) != '{' && text[i] != '}'
}

spec fn plain(text: Seq<char>) -> bool {
    forall|i: int| 0 <= i < text.len() ==> !is_mark(#[trigger] text[i])
}

/// The tally of a concatenation is the sum of the tallies.
pub proof fn lemma_tally_concat(a: Seq<char>, b: Seq<char>, c: char)
    ensures
        tally(a + b, c) == tally(a, c) + tally(b, c),
    decreases b.len(),
{
    if b.len() == 0 {
        assert(a + b =~= a);
    } else {
        lemma_tally_concat(a, b.drop_last(), c);
        assert((a + b).drop_last() =~= a + b.drop_last());
        assert((a + b).last() == b.last());
    }
}

proof fn lemma_tally_absent(text: Seq<char>, c: char)
    requires
        forall|i: int| 0 <= i < text.len() ==> text[i] != c,
    ensures
        tally(text, c) == 0,
    decreases text.len(),
{
    if text.len() > 0 {
        lemma_tally_absent(text.drop_last(), c);
    }
}

proof fn lemma_tally_plain(text: Seq<char>, c: char)
    requires
        plain(text),
        is_mark(c),
    ensures
        tally(text, c) == 0,
        brace_free(text),
{
    assert forall|i: int| 0 <= i < text.len() implies text[i] != c by {
        assert(!is_mark(text[i]));
    }
    lemma_tally_absent(text, c);
    assert forall|i: int| 0 <= i < text.len() implies (#[trigger] text[i]) != '{' && text[i]
        != '}' by {
        assert(!is_mark(text[i]));
    }
}

proof fn lemma_brace_free_concat(a: Seq<char>, b: Seq<char>)
    requires
        brace_free(a),
        brace_free(b),
    ensures
        brace_free(a + b),
{
    assert forall|i: int| 0 <= i < (a + b).len() implies (#[trigger] (a + b)[i]) != '{' && (a
        + b)[i] != '}' by {
        if i < a.len() {
            assert((a + b)[i] == a[i]);
        } else {
            assert((a + b)[i] == b[i - a.len()]);
        }
    }
}

proof fn lemma_brace_free_level(text: Seq<char>)
    requires
        brace_free(text),
    ensures
        brace_depth(text) == 0,
        never_below(text, 0),
{
    lemma_tally_absent(text, '{');
    lemma_tally_absent(text, '}');
    assert forall|k: int| 0 <= k <= text.len() implies brace_depth(#[trigger] text.take(k))
        >= 0 by {
        let prefix = text.take(k);
        assert forall|i: int| 0 <= i < prefix.len() implies prefix[i] != '{' && prefix[i]
            != '}' by {
            assert(prefix[i] == text[i]);
        }
        lemma_tally_absent(prefix, '{');
        lemma_tally_absent(prefix, '}');
    }
}

proof fn lemma_never_below_concat(a: Seq<char>, b: Seq<char>, slack: int)
    requires
        never_below(a, slack),
        never_below(b, slack + brace_depth(a)),
    ensures
        never_below(a + b, slack),
        brace_depth(a + b) == brace_depth(a) + brace_depth(b),
{
    lemma_tally_concat(a, b, '{');
    lemma_tally_concat(a, b, '}');
    assert forall|k: int| 0 <= k <= (a + b).len() implies brace_depth(
        #[trigger] (a + b).take(k),
    ) >= -slack by {
        if k <= a.len() {
            assert((a + b).take(k) =~= a.take(k));
        } else {
            let rest = b.take(k - a.len());
            assert((a + b).take(k) =~= a + rest);
            lemma_tally_concat(a, rest, '{');
            lemma_tally_concat(a, rest, '}');
        }
    }
}

proof fn lemma_tally_one(m: char, c: char)
    ensures
        tally(seq![m], c) == if c == m {
            1nat
        } else {
            0nat
        },
{
    let one = seq![m];
    assert(one.drop_last() =~= Seq::<char>::empty());
    assert(tally(one.drop_last(), c) == 0);
    assert(one.last() == m);
}

/// What one mark between two texts without braces amounts to.
proof fn lemma_one_mark(a: Seq<char>, m: char, b: Seq<char>, c: char)
    requires
        brace_free(a),
        brace_free(b),
    ensures
        tally(a + seq![m] + b, c) == tally(a, c) + tally(b, c) + if c == m {
            1nat
        } else {
            0nat
        },
        brace_depth(a + seq![m] + b) == if m == '{' {
            1int
        } else if m == '}' {
            -1int
        } else {
            0int
        },
        never_below(
            a + seq![m] + b,
            if m == '}' {
                1int
            } else {
                0int
            },
        ),
{
    let one = seq![m];
    lemma_tally_one(m, c);
    lemma_tally_one(m, '{');
    lemma_tally_one(m, '}');
    lemma_tally_concat(a, one, c);
    lemma_tally_concat(a + one, b, c);
    lemma_brace_free_level(a);
    lemma_brace_free_level(b);
    let slack = if m == '}' {
        1int
    } else {
        0int
    };
    assert forall|k: int| 0 <= k <= one.len() implies brace_depth(#[trigger] one.take(k))
        >= -slack by {
        if k == 0 {
            assert(one.take(0) =~= Seq::<char>::empty());
        } else {
            assert(one.take(1) =~= one);
        }
    }
    assert(never_below(a, slack));
    lemma_never_below_concat(a, one, slack);
    assert(never_below(b, slack + brace_depth(a + one)));
    lemma_never_below_concat(a + one, b, slack);
}

proof fn lemma_plain_frame(config: GenerationConfig, kind: LineKind)
    ensures
        plain(indent_of(config, kind)),
        plain(line_ending(config.line_ending)),
{
    let unit = indent_unit(config.indent_style);
    assert(plain(unit));
    assert(plain(unit + unit)) by {
        assert forall|i: int| 0 <= i < (unit + unit).len() implies !is_mark(
            #[trigger] (unit + unit)[i],
        ) by {
            if i < unit.len() {
                assert((unit + unit)[i] == unit[i]);
            } else {
                assert((unit + unit)[i] == unit[i - unit.len()]);
            }
        }
    }
    assert(plain(spaces(8)));
}

proof fn lemma_plain_decimal(n: nat)
    ensures
        plain(decimal(n)),
{
    assert forall|i: int| 0 <= i < decimal(n).len() implies !is_mark(
        #[trigger] decimal(n)[i],
    ) by {
        lemma_decimal_digits(n, i);
    }
}

/// A line holds the marks of its content, and no others.
proof fn lemma_line_tally(config: GenerationConfig, line: Line, c: char)
    requires
        is_mark(c),
    ensures
        tally(line_text(config, line), c) == tally(line.content, c),
{
    lemma_plain_frame(config, line.kind);
    let indent = indent_of(config, line.kind);
    let ending = line_ending(config.line_ending);
    lemma_tally_plain(indent, c);
    lemma_tally_plain(ending, c);
    lemma_tally_concat(indent, line.content, c);
    lemma_tally_concat(indent + line.content, ending, c);
}

/// A line whose content holds no brace.
proof fn lemma_neutral_line(config: GenerationConfig, line: Line)
    requires
        brace_free(line.content),
    ensures
        well_nested(line_text(config, line)),
{
    lemma_plain_frame(config, line.kind);
    let indent = indent_of(config, line.kind);
    let ending = line_ending(config.line_ending);
    lemma_tally_plain(indent, '{');
    lemma_tally_plain(ending, '{');
    lemma_brace_free_concat(indent, line.content);
    lemma_brace_free_concat(indent + line.content, ending);
    lemma_brace_free_level(line_text(config, line));
}

/// A line that opens a block: a head without braces, a space and an
/// opening brace.
proof fn lemma_opening_line(config: GenerationConfig, line: Line, head: Seq<char>, c: char)
    requires
        line.content == head + " {"@,
        brace_free(head),
        is_mark(c),
    ensures
        tally(line_text(config, line), c) == tally(head, c) + if c == '{' {
            1nat
        } else {
            0nat
        },
        brace_depth(line_text(config, line)) == 1,
        never_below(line_text(config, line), 0),
{
    reveal_strlit(" {");
    lemma_plain_frame(config, line.kind);
    let indent = indent_of(config, line.kind);
    let ending = line_ending(config.line_ending);
    let a = indent + head + seq![' '];
    lemma_tally_plain(indent, c);
    lemma_tally_plain(ending, c);
    assert(plain(seq![' ']));
    lemma_tally_plain(seq![' '], c);
    lemma_brace_free_concat(indent, head);
    lemma_brace_free_concat(indent + head, seq![' ']);
    lemma_tally_concat(indent, head, c);
    lemma_tally_concat(indent + head, seq![' '], c);
    lemma_one_mark(a, '{', ending, c);
    assert(line_text(config, line) =~= a + seq!['{'] + ending);
}

/// The line that closes a block.
proof fn lemma_closing_line(config: GenerationConfig, kind: LineKind, c: char)
    requires
        is_mark(c),
    ensures
        tally(line_text(config, Line { kind, content: "}"@ }), c) == if c == '}' {
            1nat
        } else {
            0nat
        },
        brace_depth(line_text(config, Line { kind, content: "}"@ })) == -1,
        never_below(line_text(config, Line { kind, content: "}"@ }), 1),
{
    reveal_strlit("}");
    lemma_plain_frame(config, kind);
    let line = Line { kind, content: "}"@ };
    let indent = indent_of(config, kind);
    let ending = line_ending(config.line_ending);
    lemma_tally_plain(indent, c);
    lemma_tally_plain(ending, c);
    lemma_one_mark(indent, '}', ending, c);
    assert(line_text(config, line) =~= indent + seq!['}'] + ending);
}

proof fn lemma_join(a: Seq<char>, b: Seq<char>)
    requires
        well_nested(a),
        well_nested(b),
    ensures
        well_nested(a + b),
{
    lemma_never_below_concat(a, b, 0);
}

proof fn lemma_wrap(open: Seq<char>, inner: Seq<char>, close: Seq<char>)
    requires
        brace_depth(open) == 1,
        never_below(open, 0),
        well_nested(inner),
        brace_depth(close) == -1,
        never_below(close, 1),
    ensures
        well_nested(open + inner + close),
{
    assert(never_below(inner, 1)) by {
        assert forall|k: int| 0 <= k <= inner.len() implies brace_depth(
            #[trigger] inner.take(k),
        ) >= -1 by {}
    }
    lemma_never_below_concat(open, inner, 0);
    lemma_never_below_concat(open + inner, close, 0);
}

proof fn lemma_empty_text()
    ensures
        well_nested(Seq::<char>::empty()),
        forall|c: char| tally(Seq::<char>::empty(), c) == 0,
{
    assert forall|k: int| 0 <= k <= 0 implies brace_depth(
        #[trigger] Seq::<char>::empty().take(k),
    ) >= 0 by {
        assert(Seq::<char>::empty().take(k) =~= Seq::<char>::empty());
    }
}

/// A method that sets no optional field, with a name without braces.
pub open spec fn bare_method(method: MethodModel) -> bool {
    &&& method.parameters.len() == 0
    &&& method.return_type is None
    &&& method.body is None
    &&& method.documentation is None
    &&& brace_free(method.name)
}

/// A field that sets no optional field, with a name and bits without
/// braces.
pub open spec fn bare_field(field: FieldModel) -> bool {
    &&& field.access is None
    &&& field.documentation is None
    &&& brace_free(field.name)
    &&& brace_free(field.bits)
}

/// A register that sets no optional field, nor do its fields and methods,
/// with a name without braces.
pub open spec fn bare_register(register: RegisterModel) -> bool {
    &&& register.offset is None
    &&& register.documentation is None
    &&& brace_free(register.name)
    &&& forall|i: int| 0 <= i < register.fields.len() ==> bare_field(#[trigger] register.fields[i])
    &&& forall|i: int|
        0 <= i < register.methods.len() ==> bare_method(#[trigger] register.methods[i])
}

/// A bank that sets no optional field, nor do its registers, with a name
/// without braces.
pub open spec fn bare_bank(bank: BankModel) -> bool {
    &&& bank.documentation is None
    &&& brace_free(bank.name)
    &&& forall|i: int|
        0 <= i < bank.registers.len() ==> bare_register(#[trigger] bank.registers[i])
}

/// A device that sets no optional field anywhere, with names without
/// braces.
pub open spec fn bare_device(device: DeviceModel) -> bool {
    &&& device.base_template is None
    &&& device.documentation is None
    &&& brace_free(device.name)
    &&& forall|i: int| 0 <= i < device.banks.len() ==> bare_bank(#[trigger] device.banks[i])
    &&& forall|i: int|
        0 <= i < device.interfaces.len() ==> brace_free((#[trigger] device.interfaces[i]).name)
    &&& forall|i: int| 0 <= i < device.methods.len() ==> bare_method(#[trigger] device.methods[i])
}

/// Imports without braces.
pub open spec fn bare_imports(imports: Seq<Seq<char>>) -> bool {
    forall|i: int| 0 <= i < imports.len() ==> brace_free(#[trigger] imports[i])
}

/// How often the mandatory fragments of a bare method hold a mark: each
/// brace once, and the colon of the placeholder comment.
pub open spec fn method_marks(c: char) -> nat {
    if c == '{' || c == '}' || c == ':' {
        1
    } else {
        0
    }
}

/// How often the mandatory fragments of a bare register hold a mark: the
/// braces of the register and of its methods, an `@` for each field, a
/// colon for each method.
pub open spec fn register_marks(register: RegisterModel, c: char) -> nat {
    if c == '{' || c == '}' {
        1 + register.methods.len()
    } else if c == '@' {
        register.fields.len()
    } else if c == ':' {
        register.methods.len()
    } else {
        0
    }
}

/// How often the mandatory fragments of bare registers hold a mark.
pub open spec fn registers_marks(registers: Seq<RegisterModel>, c: char) -> nat
    decreases registers.len(),
{
    if registers.len() == 0 {
        0
    } else {
        registers_marks(registers.drop_last(), c) + register_marks(registers.last(), c)
    }
}

/// How often the mandatory fragments of a bare bank hold a mark: its own
/// braces, and the marks of its registers.
pub open spec fn bank_marks(bank: BankModel, c: char) -> nat {
    registers_marks(bank.registers, c) + if c == '{' || c == '}' {
        1nat
    } else {
        0nat
    }
}

/// How often the mandatory fragments of bare banks hold a mark.
pub open spec fn banks_marks(banks: Seq<BankModel>, c: char) -> nat
    decreases banks.len(),
{
    if banks.len() == 0 {
        0
    } else {
        banks_marks(banks.drop_last(), c) + bank_marks(banks.last(), c)
    }
}

/// How often the mandatory fragments of a bare device hold a mark: one
/// pair of braces for the device and for each bank, register and method;
/// one `@` for each field; one colon for each method; no comma.
pub open spec fn device_marks(device: DeviceModel, c: char) -> nat {
    banks_marks(device.banks, c) + device.methods.len() * method_marks(c) + if c == '{' || c
        == '}' {
        1nat
    } else {
        0nat
    }
}

/// How often the names of methods hold a character.
pub open spec fn methods_own(methods: Seq<MethodModel>, c: char) -> nat
    decreases methods.len(),
{
    if methods.len() == 0 {
        0
    } else {
        methods_own(methods.drop_last(), c) + tally(methods.last().name, c)
    }
}

/// How often the names and bits of fields hold a character.
pub open spec fn fields_own(fields: Seq<FieldModel>, c: char) -> nat
    decreases fields.len(),
{
    if fields.len() == 0 {
        0
    } else {
        fields_own(fields.drop_last(), c) + tally(fields.last().name, c) + tally(
            fields.last().bits,
            c,
        )
    }
}

/// How often the names in a register hold a character.
pub open spec fn register_own(register: RegisterModel, c: char) -> nat {
    tally(register.name, c) + fields_own(register.fields, c) + methods_own(register.methods, c)
}

/// How often the names in registers hold a character.
pub open spec fn registers_own(registers: Seq<RegisterModel>, c: char) -> nat
    decreases registers.len(),
{
    if registers.len() == 0 {
        0
    } else {
        registers_own(registers.drop_last(), c) + register_own(registers.last(), c)
    }
}

/// How often the names in banks hold a character.
pub open spec fn banks_own(banks: Seq<BankModel>, c: char) -> nat
    decreases banks.len(),
{
    if banks.len() == 0 {
        0
    } else {
        banks_own(banks.drop_last(), c) + tally(banks.last().name, c) + registers_own(
            banks.last().registers,
            c,
        )
    }
}

/// How often the names of interfaces hold a character.
pub open spec fn interfaces_own(interfaces: Seq<InterfaceModel>, c: char) -> nat
    decreases interfaces.len(),
{
    if interfaces.len() == 0 {
        0
    } else {
        interfaces_own(interfaces.drop_last(), c) + tally(interfaces.last().name, c)
    }
}

/// How often the imports hold a character.
pub open spec fn imports_own(imports: Seq<Seq<char>>, c: char) -> nat
    decreases imports.len(),
{
    if imports.len() == 0 {
        0
    } else {
        imports_own(imports.drop_last(), c) + tally(imports.last(), c)
    }
}

/// How often the names of a device and its imports hold a character.
pub open spec fn device_own(imports: Seq<Seq<char>>, device: DeviceModel, c: char) -> nat {
    imports_own(imports, c) + tally(device.name, c) + banks_own(device.banks, c)
        + interfaces_own(device.interfaces, c) + methods_own(device.methods, c)
}

proof fn lemma_method(config: GenerationConfig, docs: bool, method: MethodModel, c: char)
    requires
        bare_method(method),
        is_mark(c),
    ensures
        tally(lines_text(config, method_lines(docs, method)), c) == method_marks(c) + tally(
            method.name,
            c,
        ),
        well_nested(lines_text(config, method_lines(docs, method))),
{
    reveal_strlit("method ");
    reveal_strlit("// TODO: Implement method");
    let head = "method "@ + method.name;
    let l1 = Line { kind: LineKind::Member, content: head + " {"@ };
    let note = "// TODO: Implement method"@;
    let l2 = Line { kind: LineKind::Body, content: note };
    let l3 = Line { kind: LineKind::Member, content: "}"@ };
    let none = Seq::<Line>::empty();
    assert(plain("method "@));
    lemma_tally_plain("method "@, c);
    lemma_brace_free_concat("method "@, method.name);
    lemma_tally_concat("method "@, method.name, c);
    assert(method_signature(method) =~= head + " {"@);
    assert(method_lines(docs, method) =~= none.push(l1).push(l2).push(l3));
    lemma_lines_text_push(config, none, l1);
    lemma_lines_text_push(config, none.push(l1), l2);
    lemma_lines_text_push(config, none.push(l1).push(l2), l3);
    let t1 = line_text(config, l1);
    let t2 = line_text(config, l2);
    let t3 = line_text(config, l3);
    assert(lines_text(config, method_lines(docs, method)) =~= t1 + t2 + t3);
    lemma_opening_line(config, l1, head, c);
    let before = note.take(7);
    let after = note.skip(8);
    assert(note =~= before + seq![':'] + after);
    assert(plain(before));
    assert(plain(after));
    lemma_tally_plain(before, c);
    lemma_tally_plain(after, c);
    lemma_one_mark(before, ':', after, c);
    lemma_line_tally(config, l2, c);
    assert(brace_free(note)) by {
        lemma_brace_free_concat(before, seq![':']);
        lemma_brace_free_concat(before + seq![':'], after);
    }
    lemma_neutral_line(config, l2);
    lemma_closing_line(config, LineKind::Member, c);
    lemma_tally_concat(t1, t2, c);
    lemma_tally_concat(t1 + t2, t3, c);
    lemma_wrap(t1, t2, t3);
}

proof fn lemma_methods(
    config: GenerationConfig,
    docs: bool,
    methods: Seq<MethodModel>,
    c: char,
)
    requires
        forall|i: int| 0 <= i < methods.len() ==> bare_method(#[trigger] methods[i]),
        is_mark(c),
    ensures
        tally(lines_text(config, methods_lines(docs, methods)), c) == methods.len()
            * method_marks(c) + methods_own(methods, c),
        well_nested(lines_text(config, methods_lines(docs, methods))),
    decreases methods.len(),
{
    lemma_empty_text();
    if methods.len() > 0 {
        let init = methods.drop_last();
        assert forall|i: int| 0 <= i < init.len() implies bare_method(#[trigger] init[i]) by {
            assert(init[i] == methods[i]);
        }
        assert(methods.last() == methods[methods.len() - 1]);
        lemma_methods(config, docs, init, c);
        lemma_method(config, docs, methods.last(), c);
        let a = methods_lines(docs, init);
        let b = method_lines(docs, methods.last());
        lemma_lines_text_concat(config, a, b);
        lemma_tally_concat(lines_text(config, a), lines_text(config, b), c);
        lemma_join(lines_text(config, a), lines_text(config, b));
        assert(methods.len() * method_marks(c) == init.len() * method_marks(c) + method_marks(
            c,
        )) by (nonlinear_arith)
            requires
                methods.len() == init.len() + 1,
        ;
    }
}

proof fn lemma_field(config: GenerationConfig, docs: bool, field: FieldModel, c: char)
    requires
        bare_field(field),
        is_mark(c),
    ensures
        tally(lines_text(config, field_lines(docs, field)), c) == tally(field.name, c) + tally(
            field.bits,
            c,
        ) + if c == '@' {
            1nat
        } else {
            0nat
        },
        well_nested(lines_text(config, field_lines(docs, field))),
{
    reveal_strlit("field ");
    reveal_strlit(" @ [");
    reveal_strlit("]");
    reveal_strlit(";");
    let content = field_declaration(field);
    let line = Line { kind: LineKind::Field, content };
    let none = Seq::<Line>::empty();
    let start = "field "@ + field.name;
    let before = start + seq![' '];
    let open = seq![' ', '['];
    let close = "]"@ + ";"@;
    let after = open + field.bits + close;
    assert(plain("field "@));
    assert(plain(seq![' ']));
    assert(plain(open));
    assert(plain(close));
    lemma_tally_plain("field "@, c);
    lemma_tally_plain(seq![' '], c);
    lemma_tally_plain(open, c);
    lemma_tally_plain(close, c);
    lemma_brace_free_concat("field "@, field.name);
    lemma_brace_free_concat(start, seq![' ']);
    lemma_brace_free_concat(open, field.bits);
    lemma_brace_free_concat(open + field.bits, close);
    lemma_tally_concat("field "@, field.name, c);
    lemma_tally_concat(start, seq![' '], c);
    lemma_tally_concat(open, field.bits, c);
    lemma_tally_concat(open + field.bits, close, c);
    assert(content =~= before + seq!['@'] + after);
    assert(field_lines(docs, field) =~= none.push(line));
    lemma_lines_text_push(config, none, line);
    assert(lines_text(config, field_lines(docs, field)) =~= line_text(config, line));
    lemma_one_mark(before, '@', after, c);
    lemma_line_tally(config, line, c);
    assert(brace_free(content)) by {
        lemma_brace_free_concat(before, seq!['@']);
        lemma_brace_free_concat(before + seq!['@'], after);
    }
    lemma_neutral_line(config, line);
}

proof fn lemma_fields(config: GenerationConfig, docs: bool, fields: Seq<FieldModel>, c: char)
    requires
        forall|i: int| 0 <= i < fields.len() ==> bare_field(#[trigger] fields[i]),
        is_mark(c),
    ensures
        tally(lines_text(config, fields_lines(docs, fields)), c) == fields_own(fields, c) + if c
            == '@' {
            fields.len()
        } else {
            0nat
        },
        well_nested(lines_text(config, fields_lines(docs, fields))),
    decreases fields.len(),
{
    lemma_empty_text();
    if fields.len() > 0 {
        let init = fields.drop_last();
        assert forall|i: int| 0 <= i < init.len() implies bare_field(#[trigger] init[i]) by {
            assert(init[i] == fields[i]);
        }
        assert(fields.last() == fields[fields.len() - 1]);
        lemma_fields(config, docs, init, c);
        lemma_field(config, docs, fields.last(), c);
        let a = fields_lines(docs, init);
        let b = field_lines(docs, fields.last());
        lemma_lines_text_concat(config, a, b);
        lemma_tally_concat(lines_text(config, a), lines_text(config, b), c);
        lemma_join(lines_text(config, a), lines_text(config, b));
    }
}

proof fn lemma_register(config: GenerationConfig, docs: bool, register: RegisterModel, c: char)
    requires
        bare_register(register),
        is_mark(c),
    ensures
        tally(lines_text(config, register_lines(docs, register)), c) == register_marks(
            register,
            c,
        ) + register_own(register, c),
        well_nested(lines_text(config, register_lines(docs, register))),
{
    reveal_strlit("register ");
    reveal_strlit(" size ");
    let named = "register "@ + register.name;
    let sized = " size "@ + decimal(register.size);
    let head = named + sized;
    let opening = Line { kind: LineKind::Member, content: head + " {"@ };
    let closing = Line { kind: LineKind::Member, content: "}"@ };
    let fields = fields_lines(docs, register.fields);
    let methods = methods_lines(docs, register.methods);
    let none = Seq::<Line>::empty();
    assert(plain("register "@));
    assert(plain(" size "@));
    lemma_plain_decimal(register.size);
    lemma_tally_plain("register "@, c);
    lemma_tally_plain(" size "@, c);
    lemma_tally_plain(decimal(register.size), c);
    lemma_brace_free_concat("register "@, register.name);
    lemma_brace_free_concat(" size "@, decimal(register.size));
    lemma_brace_free_concat(named, sized);
    lemma_tally_concat("register "@, register.name, c);
    lemma_tally_concat(" size "@, decimal(register.size), c);
    lemma_tally_concat(named, sized, c);
    assert(register_header(register) =~= head + " {"@);
    assert(register_lines(docs, register) =~= (none.push(opening) + fields + methods).push(
        closing,
    ));
    lemma_lines_text_push(config, none, opening);
    lemma_lines_text_concat(config, none.push(opening), fields);
    lemma_lines_text_concat(config, none.push(opening) + fields, methods);
    lemma_lines_text_push(config, none.push(opening) + fields + methods, closing);
    let t1 = line_text(config, opening);
    let t2 = lines_text(config, fields);
    let t3 = lines_text(config, methods);
    let t4 = line_text(config, closing);
    assert(lines_text(config, register_lines(docs, register)) =~= t1 + (t2 + t3) + t4);
    lemma_opening_line(config, opening, head, c);
    lemma_fields(config, docs, register.fields, c);
    lemma_methods(config, docs, register.methods, c);
    lemma_closing_line(config, LineKind::Member, c);
    lemma_tally_concat(t2, t3, c);
    lemma_tally_concat(t1, t2 + t3, c);
    lemma_tally_concat(t1 + (t2 + t3), t4, c);
    lemma_join(t2, t3);
    lemma_wrap(t1, t2 + t3, t4);
    assert(register.methods.len() * method_marks(c) == if method_marks(c) == 1 {
        register.methods.len()
    } else {
        0nat
    }) by (nonlinear_arith)
        requires
            method_marks(c) == 0 || method_marks(c) == 1,
    ;
}

proof fn lemma_registers(
    config: GenerationConfig,
    docs: bool,
    registers: Seq<RegisterModel>,
    c: char,
)
    requires
        forall|i: int| 0 <= i < registers.len() ==> bare_register(#[trigger] registers[i]),
        is_mark(c),
    ensures
        tally(lines_text(config, registers_lines(docs, registers)), c) == registers_marks(
            registers,
            c,
        ) + registers_own(registers, c),
        well_nested(lines_text(config, registers_lines(docs, registers))),
    decreases registers.len(),
{
    lemma_empty_text();
    if registers.len() > 0 {
        let init = registers.drop_last();
        assert forall|i: int| 0 <= i < init.len() implies bare_register(#[trigger] init[i]) by {
            assert(init[i] == registers[i]);
        }
        assert(registers.last() == registers[registers.len() - 1]);
        lemma_registers(config, docs, init, c);
        lemma_register(config, docs, registers.last(), c);
        let a = registers_lines(docs, init);
        let b = register_lines(docs, registers.last());
        lemma_lines_text_concat(config, a, b);
        lemma_tally_concat(lines_text(config, a), lines_text(config, b), c);
        lemma_join(lines_text(config, a), lines_text(config, b));
    }
}

proof fn lemma_bank(config: GenerationConfig, docs: bool, bank: BankModel, c: char)
    requires
        bare_bank(bank),
        is_mark(c),
    ensures
        tally(lines_text(config, bank_lines(docs, bank)), c) == bank_marks(bank, c) + tally(
            bank.name,
            c,
        ) + registers_own(bank.registers, c),
        well_nested(lines_text(config, bank_lines(docs, bank))),
{
    reveal_strlit("bank ");
    let head = "bank "@ + bank.name;
    let opening = Line { kind: LineKind::Member, content: head + " {"@ };
    let closing = Line { kind: LineKind::Member, content: "}"@ };
    let registers = registers_lines(docs, bank.registers);
    let none = Seq::<Line>::empty();
    assert(plain("bank "@));
    lemma_tally_plain("bank "@, c);
    lemma_brace_free_concat("bank "@, bank.name);
    lemma_tally_concat("bank "@, bank.name, c);
    assert("bank "@ + bank.name + " {"@ =~= head + " {"@);
    assert(bank_lines(docs, bank) =~= (none.push(opening) + registers).push(closing));
    lemma_lines_text_push(config, none, opening);
    lemma_lines_text_concat(config, none.push(opening), registers);
    lemma_lines_text_push(config, none.push(opening) + registers, closing);
    let t1 = line_text(config, opening);
    let t2 = lines_text(config, registers);
    let t3 = line_text(config, closing);
    assert(lines_text(config, bank_lines(docs, bank)) =~= t1 + t2 + t3);
    lemma_opening_line(config, opening, head, c);
    lemma_registers(config, docs, bank.registers, c);
    lemma_closing_line(config, LineKind::Member, c);
    lemma_tally_concat(t1, t2, c);
    lemma_tally_concat(t1 + t2, t3, c);
    lemma_wrap(t1, t2, t3);
}

proof fn lemma_banks(config: GenerationConfig, docs: bool, banks: Seq<BankModel>, c: char)
    requires
        forall|i: int| 0 <= i < banks.len() ==> bare_bank(#[trigger] banks[i]),
        is_mark(c),
    ensures
        tally(lines_text(config, banks_lines(docs, banks)), c) == banks_marks(banks, c)
            + banks_own(banks, c),
        well_nested(lines_text(config, banks_lines(docs, banks))),
    decreases banks.len(),
{
    lemma_empty_text();
    if banks.len() > 0 {
        let init = banks.drop_last();
        assert forall|i: int| 0 <= i < init.len() implies bare_bank(#[trigger] init[i]) by {
            assert(init[i] == banks[i]);
        }
        assert(banks.last() == banks[banks.len() - 1]);
        lemma_banks(config, docs, init, c);
        lemma_bank(config, docs, banks.last(), c);
        let a = banks_lines(docs, init);
        let b = bank_lines(docs, banks.last());
        lemma_lines_text_concat(config, a, b);
        lemma_tally_concat(lines_text(config, a), lines_text(config, b), c);
        lemma_join(lines_text(config, a), lines_text(config, b));
    }
}

proof fn lemma_interfaces(config: GenerationConfig, interfaces: Seq<InterfaceModel>, c: char)
    requires
        forall|i: int| 0 <= i < interfaces.len() ==> brace_free((#[trigger] interfaces[i]).name),
        is_mark(c),
    ensures
        tally(lines_text(config, interfaces_lines(interfaces)), c) == interfaces_own(
            interfaces,
            c,
        ),
        well_nested(lines_text(config, interfaces_lines(interfaces))),
    decreases interfaces.len(),
{
    reveal_strlit("implement ");
    reveal_strlit(";");
    lemma_empty_text();
    if interfaces.len() > 0 {
        let init = interfaces.drop_last();
        assert forall|i: int| 0 <= i < init.len() implies brace_free(
            (#[trigger] init[i]).name,
        ) by {
            assert(init[i] == interfaces[i]);
        }
        assert(interfaces.last() == interfaces[interfaces.len() - 1]);
        lemma_interfaces(config, init, c);
        let name = interfaces.last().name;
        let line = interface_line(interfaces.last());
        assert(plain("implement "@));
        assert(plain(";"@));
        lemma_tally_plain("implement "@, c);
        lemma_tally_plain(";"@, c);
        lemma_brace_free_concat("implement "@, name);
        lemma_brace_free_concat("implement "@ + name, ";"@);
        lemma_tally_concat("implement "@, name, c);
        lemma_tally_concat("implement "@ + name, ";"@, c);
        lemma_line_tally(config, line, c);
        lemma_neutral_line(config, line);
        lemma_lines_text_push(config, interfaces_lines(init), line);
        let a = lines_text(config, interfaces_lines(init));
        let b = line_text(config, line);
        lemma_tally_concat(a, b, c);
        lemma_join(a, b);
    }
}

proof fn lemma_imports(config: GenerationConfig, imports: Seq<Seq<char>>, c: char)
    requires
        bare_imports(imports),
        is_mark(c),
    ensures
        tally(lines_text(config, imports_lines(imports)), c) == imports_own(imports, c),
        well_nested(lines_text(config, imports_lines(imports))),
    decreases imports.len(),
{
    reveal_strlit("import \"");
    reveal_strlit("\";");
    lemma_empty_text();
    if imports.len() > 0 {
        let init = imports.drop_last();
        assert forall|i: int| 0 <= i < init.len() implies brace_free(#[trigger] init[i]) by {
            assert(init[i] == imports[i]);
        }
        assert(imports.last() == imports[imports.len() - 1]);
        lemma_imports(config, init, c);
        let name = imports.last();
        let line = import_line(name);
        assert(plain("import \""@));
        assert(plain("\";"@));
        lemma_tally_plain("import \""@, c);
        lemma_tally_plain("\";"@, c);
        lemma_brace_free_concat("import \""@, name);
        lemma_brace_free_concat("import \""@ + name, "\";"@);
        lemma_tally_concat("import \""@, name, c);
        lemma_tally_concat("import \""@ + name, "\";"@, c);
        lemma_line_tally(config, line, c);
        lemma_neutral_line(config, line);
        lemma_lines_text_push(config, imports_lines(init), line);
        let a = lines_text(config, imports_lines(init));
        let b = line_text(config, line);
        lemma_tally_concat(a, b, c);
        lemma_join(a, b);
    }
}

proof fn lemma_header(config: GenerationConfig, imports: Seq<Seq<char>>, c: char)
    requires
        bare_imports(imports),
        is_mark(c),
    ensures
        tally(lines_text(config, header_lines(imports)), c) == imports_own(imports, c),
        well_nested(lines_text(config, header_lines(imports))),
{
    reveal_strlit("dml 1.4;");
    let version = Line { kind: LineKind::Top, content: "dml 1.4;"@ };
    let blank = blank_line();
    let none = Seq::<Line>::empty();
    let start = none.push(version).push(blank);
    let listed = imports_lines(imports);
    assert(plain("dml 1.4;"@));
    assert(plain(blank.content));
    lemma_tally_plain("dml 1.4;"@, c);
    lemma_tally_plain(blank.content, c);
    lemma_line_tally(config, version, c);
    lemma_line_tally(config, blank, c);
    lemma_neutral_line(config, version);
    lemma_neutral_line(config, blank);
    lemma_imports(config, imports, c);
    lemma_lines_text_push(config, none, version);
    lemma_lines_text_push(config, none.push(version), blank);
    let t1 = line_text(config, version);
    let t2 = line_text(config, blank);
    let t3 = lines_text(config, listed);
    assert(lines_text(config, start) =~= t1 + t2);
    lemma_tally_concat(t1, t2, c);
    lemma_join(t1, t2);
    lemma_lines_text_concat(config, start, listed);
    lemma_tally_concat(t1 + t2, t3, c);
    lemma_join(t1 + t2, t3);
    if imports.len() > 0 {
        assert(header_lines(imports) =~= (start + listed).push(blank));
        lemma_lines_text_push(config, start + listed, blank);
        lemma_tally_concat(t1 + t2 + t3, t2, c);
        lemma_join(t1 + t2 + t3, t2);
    } else {
        assert(header_lines(imports) =~= start + listed);
    }
}

proof fn lemma_device(config: GenerationConfig, docs: bool, device: DeviceModel, c: char)
    requires
        bare_device(device),
        is_mark(c),
    ensures
        tally(lines_text(config, device_lines(docs, device)), c) == device_marks(device, c)
            + tally(device.name, c) + banks_own(device.banks, c) + interfaces_own(
            device.interfaces,
            c,
        ) + methods_own(device.methods, c),
        well_nested(lines_text(config, device_lines(docs, device))),
{
    reveal_strlit("device ");
    let head = "device "@ + device.name;
    let opening = Line { kind: LineKind::Top, content: head + " {"@ };
    let closing = Line { kind: LineKind::Top, content: "}"@ };
    let banks = banks_lines(docs, device.banks);
    let interfaces = interfaces_lines(device.interfaces);
    let methods = methods_lines(docs, device.methods);
    let none = Seq::<Line>::empty();
    assert(plain("device "@));
    lemma_tally_plain("device "@, c);
    lemma_brace_free_concat("device "@, device.name);
    lemma_tally_concat("device "@, device.name, c);
    assert(device_declaration(device) =~= head + " {"@);
    assert(device_opening(docs, device) =~= none.push(opening));
    assert(device_lines(docs, device) =~= (none.push(opening) + banks + interfaces
        + methods).push(closing));
    lemma_lines_text_push(config, none, opening);
    lemma_lines_text_concat(config, none.push(opening), banks);
    lemma_lines_text_concat(config, none.push(opening) + banks, interfaces);
    lemma_lines_text_concat(config, none.push(opening) + banks + interfaces, methods);
    lemma_lines_text_push(config, none.push(opening) + banks + interfaces + methods, closing);
    let t1 = line_text(config, opening);
    let t2 = lines_text(config, banks);
    let t3 = lines_text(config, interfaces);
    let t4 = lines_text(config, methods);
    let t5 = line_text(config, closing);
    assert(lines_text(config, device_lines(docs, device)) =~= t1 + (t2 + t3 + t4) + t5);
    lemma_opening_line(config, opening, head, c);
    lemma_banks(config, docs, device.banks, c);
    lemma_interfaces(config, device.interfaces, c);
    lemma_methods(config, docs, device.methods, c);
    lemma_closing_line(config, LineKind::Top, c);
    lemma_tally_concat(t2, t3, c);
    lemma_tally_concat(t2 + t3, t4, c);
    lemma_tally_concat(t1, t2 + t3 + t4, c);
    lemma_tally_concat(t1 + (t2 + t3 + t4), t5, c);
    lemma_join(t2, t3);
    lemma_join(t2 + t3, t4);
    lemma_wrap(t1, t2 + t3 + t4, t5);
}

/// The text of a device that sets no optional field holds each brace and
/// each separator exactly as often as the mandatory fragments put it and
/// the names of the description hold it themselves: a pair of braces for
/// the device and for each bank, register and method; an `@` for each
/// field; a colon for each method, in its placeholder comment; no comma.
/// Its braces are correctly nested.
pub proof fn lemma_bare_device_text(
    config: GenerationConfig,
    imports: Seq<Seq<char>>,
    device: DeviceModel,
    c: char,
)
    requires
        bare_device(device),
        bare_imports(imports),
        is_mark(c),
    ensures
        tally(device_file_text(config, imports, device), c) == device_marks(device, c)
            + device_own(imports, device, c),
        well_nested(device_file_text(config, imports, device)),
{
    let docs = config.generate_docs;
    lemma_header(config, imports, c);
    lemma_device(config, docs, device, c);
    lemma_lines_text_concat(config, header_lines(imports), device_lines(docs, device));
    let a = lines_text(config, header_lines(imports));
    let b = lines_text(config, device_lines(docs, device));
    lemma_tally_concat(a, b, c);
    lemma_join(a, b);
}

} // verus!
