//! Laws of the library: what holds of every input, stated over the models
//! that the functions' contracts use and proved from their definitions.

use vstd::prelude::*;
use crate::generation::{generated_from, GeneratedCode, GenerationConfig, IndentStyle};
use crate::json::JsonModel;
use crate::layout::{
    bank_lines, banks_lines, depth, device_lines, doc_lines, field_lines, fields_lines,
    interfaces_lines, line_text, method_lines, methods_lines, register_header, register_lines,
    registers_lines, Line, LineKind,
};
use crate::model::{
    BankModel, DeviceModel, FieldModel, InterfaceModel, MethodModel, RegisterModel,
};
use crate::server::{details, failure, DMLMCPServer, JsonRpcMessageModel, INTERNAL_ERROR};
use crate::text::{decimal, digit, spaces};
use crate::tools::{
    builtin_names, builtin_tools, lemma_builtin_names, lemma_position, listing_of, DMLTool,
};

verus! {

/// Generation is repeatable: two results of generating the same device with
/// the same imports under the same configuration hold the same text, the
/// same file name and the same dependencies.
pub proof fn lemma_generation_repeatable(
    config: GenerationConfig,
    imports: Seq<Seq<char>>,
    device: DeviceModel,
    first: GeneratedCode,
    second: GeneratedCode,
)
    requires
        generated_from(config, imports, device, first),
        generated_from(config, imports, device, second),
    ensures
        first.content@ == second.content@,
        first.file_path@ == second.file_path@,
        first.dependencies.deep_view() == second.dependencies.deep_view(),
{
}

/// The listing of the built-in tools holds the name of every built-in tool
/// exactly once: the `k`-th name stands at place `k` and nowhere else. A
/// listing is taken from a registry that is only read, so no call made
/// before it changes it.
pub proof fn lemma_builtin_tools_listed_once(k: int)
    requires
        0 <= k < builtin_names().len(),
    ensures
        listing_of(builtin_tools()).len() == builtin_names().len(),
        listing_of(builtin_tools())[k].name == builtin_names()[k],
        forall|i: int|
            0 <= i < listing_of(builtin_tools()).len() && listing_of(builtin_tools())[i].name
                == builtin_names()[k] ==> i == k,
{
    lemma_builtin_names();
    let listing = listing_of(builtin_tools());
    assert forall|i: int| 0 <= i < listing.len() && listing[i].name
        == builtin_names()[k] implies i == k by {
        assert(listing[i].name == builtin_tools()[i].name_model());
        assert(listing[k].name == builtin_tools()[k].name_model());
        if i < k {
            assert(builtin_tools()[i].name_model() != builtin_tools()[k].name_model());
        }
        if k < i {
            assert(builtin_tools()[k].name_model() != builtin_tools()[i].name_model());
        }
    }
}

/// A call of a tool that is not registered is answered, and with an error
/// response: it echoes the identifier, has the code of an internal error,
/// and its details end in the name that was asked for. This holds of every
/// `tools/call` request that names a tool and holds arguments.
pub proof fn lemma_unknown_tool_reported(
    server: DMLMCPServer,
    message: JsonRpcMessageModel,
    params: JsonModel,
    name: Seq<char>,
)
    requires
        message.method == Some("tools/call"@),
        message.params == Some(params),
        params.index("name"@).as_str() == Some(name),
        params.get("arguments"@) is Some,
        forall|i: int| 0 <= i < server.tools().len() ==> server.tools()[i].name_model() != name,
    ensures
        server.reply_to(message) == Some(
            failure(
                message.id,
                INTERNAL_ERROR,
                "Internal error"@,
                Some(details("Unknown tool: "@ + name)),
            ),
        ),
        INTERNAL_ERROR == -32603,
{
    reveal_strlit("tools/call");
    reveal_strlit("tools/list");
    reveal_strlit("initialize");
    assert("tools/call"@[0] == 't' && "initialize"@[0] == 'i');
    assert("tools/call"@[6] == 'c' && "tools/list"@[6] == 'l');
    lemma_position(server.tools(), name);
}

/// Whether `pattern` stands in `text` at the place `at`.
pub open spec fn occurs_at(text: Seq<char>, pattern: Seq<char>, at: int) -> bool {
    &&& 0 <= at
    &&& at + pattern.len() <= text.len()
    &&& text.subrange(at, at + pattern.len()) == pattern
}

/// A decimal numeral holds digits only.
pub proof fn lemma_decimal_digits(n: nat, i: int)
    requires
        0 <= i < decimal(n).len(),
    ensures
        exists|d: nat| d < 10 && decimal(n)[i] == digit(d),
    decreases n,
{
    if n < 10 {
        assert(decimal(n)[i] == digit(n));
    } else {
        if i < decimal(n / 10).len() {
            lemma_decimal_digits(n / 10, i);
            assert(decimal(n)[i] == decimal(n / 10)[i]);
        } else {
            assert(decimal(n)[i] == digit(n % 10));
        }
    }
}

/// The header of a register without an offset holds `@` only where the
/// register's name holds one.
pub proof fn lemma_header_without_offset(register: RegisterModel)
    requires
        register.offset is None,
    ensures
        register_header(register).contains('@') <==> register.name.contains('@'),
{
    reveal_strlit("register ");
    reveal_strlit(" size ");
    reveal_strlit(" {");
    let header = register_header(register);
    let numeral = decimal(register.size);
    let name = register.name;
    assert(header =~= "register "@ + name + " size "@ + numeral + " {"@);
    if name.contains('@') {
        let i = choose|i: int| 0 <= i < name.len() && name[i] == '@';
        assert(header[9 + i] == '@');
    }
    if header.contains('@') {
        let i = choose|i: int| 0 <= i < header.len() && header[i] == '@';
        if i < 9 {
        } else if i < 9 + name.len() {
            assert(name[i - 9] == '@');
        } else if i < 9 + name.len() + 6 {
        } else if i < 9 + name.len() + 6 + numeral.len() {
            let k = i - 9 - name.len() - 6;
            lemma_decimal_digits(register.size, k);
            assert(header[i] == numeral[k]);
        } else {
        }
    }
}

proof fn lemma_period_two(pattern: Seq<char>, k: int)
    requires
        forall|j: int| 2 <= j < pattern.len() ==> #[trigger] pattern[j] == pattern[j - 2],
        0 <= k < pattern.len(),
    ensures
        pattern[k] == pattern[k % 2],
    decreases k,
{
    if k >= 2 {
        lemma_period_two(pattern, k - 2);
        assert(pattern[k - 2] == pattern[k]);
        assert((k - 2) % 2 == k % 2);
    }
}

/// The header of a register with the offset `x` holds `@ x` exactly once,
/// unless an occurrence of `@ x` begins inside the register's name. Every
/// name without `@` is of this kind.
pub proof fn lemma_header_with_offset(register: RegisterModel, offset: Seq<char>)
    requires
        register.offset == Some(offset),
        forall|at: int|
            9 <= at < 9 + register.name.len() ==> !occurs_at(
                register_header(register),
                "@ "@ + offset,
                at,
            ),
    ensures
        exists|at: int|
            {
                &&& #[trigger] occurs_at(register_header(register), "@ "@ + offset, at)
                &&& forall|other: int|
                    occurs_at(register_header(register), "@ "@ + offset, other) ==> other == at
            },
{
    reveal_strlit("register ");
    reveal_strlit(" size ");
    reveal_strlit(" @ ");
    reveal_strlit("@ ");
    reveal_strlit(" {");
    let header = register_header(register);
    let numeral = decimal(register.size);
    let name = register.name;
    let pattern = "@ "@ + offset;
    let m = pattern.len() as int;
    let place = (9 + name.len() + 6 + numeral.len() + 1) as int;
    assert(header =~= "register "@ + name + " size "@ + numeral + " @ "@ + offset + " {"@);
    assert(header.len() == place + m + 2);
    assert(header.subrange(place, place + m) =~= pattern);
    assert(occurs_at(header, pattern, place));
    assert forall|other: int| occurs_at(header, pattern, other) implies other == place by {
        assert(header.subrange(other, other + m)[0] == pattern[0]);
        assert(header[other] == '@');
        if other < 9 {
        } else if other < 9 + name.len() {
        } else if other < 9 + name.len() + 6 {
        } else if other < 9 + name.len() + 6 + numeral.len() {
            let k = other - 9 - name.len() - 6;
            lemma_decimal_digits(register.size, k);
            assert(header[other] == numeral[k]);
        } else if other < place {
        } else if other == place + 1 {
            assert(header[place + 1] == ' ');
        } else if other > place {
            assert(other == place + 2);
            assert forall|j: int| 2 <= j < m implies #[trigger] pattern[j] == pattern[j - 2] by {
                assert(header.subrange(other, other + m)[j - 2] == pattern[j - 2]);
                assert(header.subrange(place, place + m)[j] == pattern[j]);
            }
            assert(header.subrange(other, other + m)[m - 1] == pattern[m - 1]);
            assert(header[place + m + 1] == '{');
            lemma_period_two(pattern, m - 1);
            assert(pattern[0] == '@' && pattern[1] == ' ');
        }
    }
}

/// A content that does not begin with a space.
pub open spec fn starts_clean(content: Seq<char>) -> bool {
    content.len() == 0 || content[0] != ' '
}

/// The number of spaces that a line of a kind begins with where one step of
/// indentation is `n` spaces: `n` for each level of nesting, and eight for
/// a field whatever `n` is.
pub open spec fn leading_spaces(n: nat, kind: LineKind) -> nat {
    match kind {
        LineKind::Field => 8,
        _ => n * depth(kind),
    }
}

/// The line, as text, begins with exactly the number of spaces that its
/// kind asks for: so many spaces, and then a character that is no space.
pub open spec fn indented_exactly(config: GenerationConfig, n: nat, line: Line) -> bool {
    let text = line_text(config, line);
    let k = leading_spaces(n, line.kind) as int;
    &&& k < text.len()
    &&& text.subrange(0, k) == spaces(k as nat)
    &&& text[k] != ' '
}

/// The bodies of the methods do not begin with a space.
pub open spec fn methods_clean(methods: Seq<MethodModel>) -> bool {
    forall|i: int|
        0 <= i < methods.len() ==> match (#[trigger] methods[i]).body {
            Some(body) => starts_clean(body),
            None => true,
        }
}

/// The bodies of the registers' methods do not begin with a space.
pub open spec fn registers_clean(registers: Seq<RegisterModel>) -> bool {
    forall|i: int| 0 <= i < registers.len() ==> methods_clean((#[trigger] registers[i]).methods)
}

/// The bodies of the methods of the banks' registers do not begin with a
/// space.
pub open spec fn banks_clean(banks: Seq<BankModel>) -> bool {
    forall|i: int| 0 <= i < banks.len() ==> registers_clean((#[trigger] banks[i]).registers)
}

/// No body of a method of the device or of one of its registers begins
/// with a space.
pub open spec fn bodies_clean(device: DeviceModel) -> bool {
    methods_clean(device.methods) && banks_clean(device.banks)
}

spec fn all_clean(lines: Seq<Line>) -> bool {
    forall|i: int| 0 <= i < lines.len() ==> starts_clean((#[trigger] lines[i]).content)
}

proof fn lemma_clean_docs(docs: bool, kind: LineKind, documentation: Option<Seq<char>>)
    ensures
        all_clean(doc_lines(docs, kind, documentation)),
{
    reveal_strlit("/// ");
}

proof fn lemma_clean_method(docs: bool, method: MethodModel)
    requires
        methods_clean(seq![method]),
    ensures
        all_clean(method_lines(docs, method)),
{
    reveal_strlit("method ");
    reveal_strlit("}");
    reveal_strlit("// TODO: Implement method");
    lemma_clean_docs(docs, LineKind::Member, method.documentation);
    assert(seq![method][0] == method);
}

proof fn lemma_clean_methods(docs: bool, methods: Seq<MethodModel>)
    requires
        methods_clean(methods),
    ensures
        all_clean(methods_lines(docs, methods)),
    decreases methods.len(),
{
    if methods.len() > 0 {
        let init = methods.drop_last();
        assert forall|i: int| 0 <= i < init.len() implies match (#[trigger] init[i]).body {
            Some(body) => starts_clean(body),
            None => true,
        } by {
            assert(init[i] == methods[i]);
        }
        lemma_clean_methods(docs, init);
        assert(methods.last() == methods[methods.len() - 1]);
        assert(seq![methods.last()][0] == methods.last());
        lemma_clean_method(docs, methods.last());
    }
}

proof fn lemma_clean_field(docs: bool, field: FieldModel)
    ensures
        all_clean(field_lines(docs, field)),
{
    reveal_strlit("field ");
    lemma_clean_docs(docs, LineKind::Field, field.documentation);
}

proof fn lemma_clean_fields(docs: bool, fields: Seq<FieldModel>)
    ensures
        all_clean(fields_lines(docs, fields)),
    decreases fields.len(),
{
    if fields.len() > 0 {
        lemma_clean_fields(docs, fields.drop_last());
        lemma_clean_field(docs, fields.last());
    }
}

proof fn lemma_clean_register(docs: bool, register: RegisterModel)
    requires
        methods_clean(register.methods),
    ensures
        all_clean(register_lines(docs, register)),
{
    reveal_strlit("register ");
    reveal_strlit("}");
    lemma_clean_docs(docs, LineKind::Member, register.documentation);
    lemma_clean_fields(docs, register.fields);
    lemma_clean_methods(docs, register.methods);
}

proof fn lemma_clean_registers(docs: bool, registers: Seq<RegisterModel>)
    requires
        registers_clean(registers),
    ensures
        all_clean(registers_lines(docs, registers)),
    decreases registers.len(),
{
    if registers.len() > 0 {
        let init = registers.drop_last();
        assert forall|i: int| 0 <= i < init.len() implies methods_clean(
            (#[trigger] init[i]).methods,
        ) by {
            assert(init[i] == registers[i]);
        }
        lemma_clean_registers(docs, init);
        assert(registers.last() == registers[registers.len() - 1]);
        lemma_clean_register(docs, registers.last());
    }
}

proof fn lemma_clean_bank(docs: bool, bank: BankModel)
    requires
        registers_clean(bank.registers),
    ensures
        all_clean(bank_lines(docs, bank)),
{
    reveal_strlit("bank ");
    reveal_strlit("}");
    lemma_clean_docs(docs, LineKind::Member, bank.documentation);
    lemma_clean_registers(docs, bank.registers);
}

proof fn lemma_clean_banks(docs: bool, banks: Seq<BankModel>)
    requires
        banks_clean(banks),
    ensures
        all_clean(banks_lines(docs, banks)),
    decreases banks.len(),
{
    if banks.len() > 0 {
        let init = banks.drop_last();
        assert forall|i: int| 0 <= i < init.len() implies registers_clean(
            (#[trigger] init[i]).registers,
        ) by {
            assert(init[i] == banks[i]);
        }
        lemma_clean_banks(docs, init);
        assert(banks.last() == banks[banks.len() - 1]);
        lemma_clean_bank(docs, banks.last());
    }
}

proof fn lemma_clean_interfaces(interfaces: Seq<InterfaceModel>)
    ensures
        all_clean(interfaces_lines(interfaces)),
    decreases interfaces.len(),
{
    reveal_strlit("implement ");
    if interfaces.len() > 0 {
        lemma_clean_interfaces(interfaces.drop_last());
    }
}

proof fn lemma_clean_device(docs: bool, device: DeviceModel)
    requires
        bodies_clean(device),
    ensures
        all_clean(device_lines(docs, device)),
{
    reveal_strlit("device ");
    reveal_strlit("}");
    lemma_clean_docs(docs, LineKind::Top, device.documentation);
    lemma_clean_banks(docs, device.banks);
    lemma_clean_interfaces(device.interfaces);
    lemma_clean_methods(docs, device.methods);
}

/// Where one step of indentation is `n` spaces, every line of a device
/// begins with exactly `n` spaces for each level of its nesting: none for
/// the device's own lines, `n` for the lines of banks, registers, methods
/// and interfaces, twice `n` for the body of a method; and with exactly
/// eight spaces for a field, whatever `n` is. A body that itself begins
/// with a space is indented further, so such bodies are left out.
pub proof fn lemma_lines_indented(
    config: GenerationConfig,
    n: usize,
    device: DeviceModel,
    i: int,
)
    requires
        config.indent_style == IndentStyle::Spaces(n),
        bodies_clean(device),
        0 <= i < device_lines(config.generate_docs, device).len(),
    ensures
        indented_exactly(config, n as nat, device_lines(config.generate_docs, device)[i]),
{
    let line = device_lines(config.generate_docs, device)[i];
    lemma_clean_device(config.generate_docs, device);
    assert(starts_clean(line.content));
    let text = line_text(config, line);
    let k = leading_spaces(n as nat, line.kind) as int;
    let unit = spaces(n as nat);
    assert(unit + unit =~= spaces((n + n) as nat));
    assert(spaces(0) =~= Seq::<char>::empty());
    assert(text.subrange(0, k) =~= spaces(k as nat));
}

} // verus!
