//! The tools that a peer can call, and the registry that holds them.
//!
//! A tool has a name, a description, a schema of its input, and an
//! operation from a JSON value to a result or an error. The registry keeps
//! one tool per name: registering a tool under a name that is taken replaces
//! the tool that had it.

use vstd::prelude::*;
use crate::json::{text_or, Json, JsonModel, Member};
use crate::lists::{list0, list1, list2, list3, list4, list5};
use crate::text::{decimal, decimal_text};

verus! {

/// A piece of a tool's result: a kind and a text.
#[derive(Debug)]
pub struct ToolContent {
    pub content_type: String,
    pub text: String,
}

/// Model of a [`ToolContent`].
pub struct ToolContentModel {
    pub content_type: Seq<char>,
    pub text: Seq<char>,
}

impl DeepView for ToolContent {
    type V = ToolContentModel;

    open spec fn deep_view(&self) -> ToolContentModel {
        ToolContentModel { content_type: self.content_type@, text: self.text@ }
    }
}

impl View for ToolContent {
    type V = ToolContentModel;

    open spec fn view(&self) -> ToolContentModel {
        self.deep_view()
    }
}

/// What a tool returns: pieces of content, and optionally whether they
/// report an error.
#[derive(Debug)]
pub struct ToolResult {
    pub content: Vec<ToolContent>,
    pub is_error: Option<bool>,
}

/// Model of a [`ToolResult`].
pub struct ToolResultModel {
    pub content: Seq<ToolContentModel>,
    pub is_error: Option<bool>,
}

impl DeepView for ToolResult {
    type V = ToolResultModel;

    open spec fn deep_view(&self) -> ToolResultModel {
        ToolResultModel { content: self.content.deep_view(), is_error: self.is_error }
    }
}

impl View for ToolResult {
    type V = ToolResultModel;

    open spec fn view(&self) -> ToolResultModel {
        self.deep_view()
    }
}

/// A tool as it is listed: name, description and input schema.
#[derive(Debug)]
pub struct ToolDefinition {
    pub name: String,
    pub description: String,
    pub input_schema: Json,
}

/// Model of a [`ToolDefinition`].
pub struct ToolDefinitionModel {
    pub name: Seq<char>,
    pub description: Seq<char>,
    pub input_schema: JsonModel,
}

impl DeepView for ToolDefinition {
    type V = ToolDefinitionModel;

    open spec fn deep_view(&self) -> ToolDefinitionModel {
        ToolDefinitionModel {
            name: self.name@,
            description: self.description@,
            input_schema: self.input_schema@,
        }
    }
}

impl View for ToolDefinition {
    type V = ToolDefinitionModel;

    open spec fn view(&self) -> ToolDefinitionModel {
        self.deep_view()
    }
}

/// Why a tool call failed.
#[derive(Debug)]
pub enum ToolError {
    /// The call names no tool.
    MissingToolName,
    /// The call has no arguments.
    MissingToolArguments,
    /// No tool is registered under the name.
    UnknownTool(String),
    /// `generate_device` was called without a device name.
    MissingDeviceName,
    /// `generate_device` was called without a device type.
    MissingDeviceType,
    /// `generate_register` was called without a register name.
    MissingRegisterName,
    /// `generate_register` was called without a size, or with one that is
    /// no non-negative integer.
    InvalidRegisterSize,
}

/// Model of a [`ToolError`].
pub enum ToolErrorModel {
    MissingToolName,
    MissingToolArguments,
    UnknownTool(Seq<char>),
    MissingDeviceName,
    MissingDeviceType,
    MissingRegisterName,
    InvalidRegisterSize,
}

impl ToolErrorModel {
    /// The error in words.
    pub open spec fn message(self) -> Seq<char> {
        match self {
            ToolErrorModel::MissingToolName => "Missing tool name"@,
            ToolErrorModel::MissingToolArguments => "Missing tool arguments"@,
            ToolErrorModel::UnknownTool(name) => "Unknown tool: "@ + name,
            ToolErrorModel::MissingDeviceName => "Missing device_name"@,
            ToolErrorModel::MissingDeviceType => "Missing device_type"@,
            ToolErrorModel::MissingRegisterName => "Missing register name"@,
            ToolErrorModel::InvalidRegisterSize => "Missing or invalid register size"@,
        }
    }
}

impl DeepView for ToolError {
    type V = ToolErrorModel;

    open spec fn deep_view(&self) -> ToolErrorModel {
        match self {
            ToolError::MissingToolName => ToolErrorModel::MissingToolName,
            ToolError::MissingToolArguments => ToolErrorModel::MissingToolArguments,
            ToolError::UnknownTool(name) => ToolErrorModel::UnknownTool(name@),
            ToolError::MissingDeviceName => ToolErrorModel::MissingDeviceName,
            ToolError::MissingDeviceType => ToolErrorModel::MissingDeviceType,
            ToolError::MissingRegisterName => ToolErrorModel::MissingRegisterName,
            ToolError::InvalidRegisterSize => ToolErrorModel::InvalidRegisterSize,
        }
    }
}

impl View for ToolError {
    type V = ToolErrorModel;

    open spec fn view(&self) -> ToolErrorModel {
        self.deep_view()
    }
}

impl ToolError {
    /// The error in words.
    pub fn message(&self) -> (text: String)
        ensures
            text@ == self@.message(),
    {
        match self {
            ToolError::MissingToolName => "Missing tool name".to_string(),
            ToolError::MissingToolArguments => "Missing tool arguments".to_string(),
            ToolError::UnknownTool(name) => {
                let mut text = "Unknown tool: ".to_string();
                text.append(name.as_str());
                text
            },
            ToolError::MissingDeviceName => "Missing device_name".to_string(),
            ToolError::MissingDeviceType => "Missing device_type".to_string(),
            ToolError::MissingRegisterName => "Missing register name".to_string(),
            ToolError::InvalidRegisterSize => "Missing or invalid register size".to_string(),
        }
    }
}

/// The model of what a tool's operation returned.
pub open spec fn outcome_model(outcome: Result<ToolResult, ToolError>) -> Result<
    ToolResultModel,
    ToolErrorModel,
> {
    match outcome {
        Ok(result) => Ok(result@),
        Err(error) => Err(error@),
    }
}

/// The model of what a call through the registry returned.
pub open spec fn reply_model(reply: Result<Json, ToolError>) -> Result<
    JsonModel,
    ToolErrorModel,
> {
    match reply {
        Ok(value) => Ok(value@),
        Err(error) => Err(error@),
    }
}

/// A piece of content as JSON: its kind under `type`, its text under `text`.
pub open spec fn content_json(content: ToolContentModel) -> JsonModel {
    JsonModel::Object(
        seq![
            ("type"@, JsonModel::Text(content.content_type)),
            ("text"@, JsonModel::Text(content.text)),
        ],
    )
}

/// A result as JSON: the pieces of content as an array under `content`, and
/// the error flag under `isError` where the result has one.
pub open spec fn result_json(result: ToolResultModel) -> JsonModel {
    let content = JsonModel::Array(
        Seq::new(result.content.len(), |i: int| content_json(result.content[i])),
    );
    match result.is_error {
        Some(flag) => JsonModel::Object(
            seq![("content"@, content), ("isError"@, JsonModel::Bool(flag))],
        ),
        None => JsonModel::Object(seq![("content"@, content)]),
    }
}

/// A result that holds one piece of text.
pub open spec fn text_result(text: Seq<char>, is_error: Option<bool>) -> ToolResultModel {
    ToolResultModel {
        content: seq![ToolContentModel { content_type: "text"@, text }],
        is_error,
    }
}

impl ToolContent {
    /// The content as JSON.
    pub fn to_json(&self) -> (value: Json)
        ensures
            value@ == content_json(self@),
    {
        Json::object(
            list2(
                Member::new("type", Json::text(self.content_type.as_str())),
                Member::new("text", Json::text(self.text.as_str())),
            ),
        )
    }
}

impl ToolResult {
    /// A result that holds one piece of text.
    pub fn from_text(text: String, is_error: Option<bool>) -> (result: ToolResult)
        ensures
            result@ == text_result(text@, is_error),
    {
        ToolResult {
            content: list1(ToolContent { content_type: "text".to_string(), text }),
            is_error,
        }
    }

    /// The result as JSON.
    pub fn to_json(&self) -> (value: Json)
        ensures
            value@ == result_json(self@),
    {
        let mut items: Vec<Json> = Vec::new();
        let mut i: usize = 0;
        while i < self.content.len()
            invariant
                i <= self.content@.len(),
                items@.len() == i,
                forall|j: int| 0 <= j < i ==> items@[j]@ == content_json(self.content@[j]@),
            decreases self.content@.len() - i,
        {
            items.push(self.content[i].to_json());
            i = i + 1;
        }
        assert(items.deep_view() =~= Seq::new(
            self@.content.len(),
            |i: int| content_json(self@.content[i]),
        ));
        let content = Json::array(items);
        match self.is_error {
            Some(flag) => Json::object(
                list2(Member::new("content", content), Member::new("isError", Json::Bool(flag))),
            ),
            None => Json::object(list1(Member::new("content", content))),
        }
    }
}

/// A tool: a named operation on JSON values.
pub trait DMLTool {
    /// The tool's name, by which calls are routed to it.
    spec fn name_model(&self) -> Seq<char>;

    /// The tool's description.
    spec fn description_model(&self) -> Seq<char>;

    /// The schema of the tool's input.
    spec fn schema_model(&self) -> JsonModel;

    /// What the tool returns for an input.
    spec fn outcome(&self, input: JsonModel) -> Result<ToolResultModel, ToolErrorModel>;

    /// The tool's name.
    fn name(&self) -> (name: &str)
        ensures
            name@ == self.name_model(),
    ;

    /// The tool's description.
    fn description(&self) -> (description: &str)
        ensures
            description@ == self.description_model(),
    ;

    /// The schema of the tool's input. It describes the input to callers
    /// and is not enforced.
    fn input_schema(&self) -> (schema: Json)
        ensures
            schema@ == self.schema_model(),
    ;

    /// Runs the tool on an input.
    fn execute(&self, input: &Json) -> (outcome: Result<ToolResult, ToolError>)
        ensures
            outcome_model(outcome) == self.outcome(input@),
    ;
}

/// The line for one entry of `registers`: a register with its size and its
/// offset (`undefined` where it has none). An entry without a name or
/// without a size gives nothing.
pub open spec fn register_entry(register: JsonModel) -> Seq<char> {
    match register.index("name"@).as_str() {
        Some(name) => match register.index("size"@).as_u64() {
            Some(size) => "        register "@ + name + " size "@ + decimal(size as nat) + " @ "@
                + text_or(register.index("offset"@), "undefined"@) + ";\n"@,
            None => Seq::empty(),
        },
        None => Seq::empty(),
    }
}

/// The lines for the entries of `registers`, in order.
pub open spec fn register_entries(registers: Seq<JsonModel>) -> Seq<char>
    decreases registers.len(),
{
    if registers.len() == 0 {
        Seq::empty()
    } else {
        register_entries(registers.drop_last()) + register_entry(registers.last())
    }
}

/// The bank that holds the registers; nothing where `registers` is no
/// array.
pub open spec fn registers_block(params: JsonModel) -> Seq<char> {
    match params.index("registers"@).as_array() {
        Some(registers) => "    bank registers {\n"@ + register_entries(registers) + "    }\n"@,
        None => Seq::empty(),
    }
}

/// The line for one entry of `interfaces`; nothing for an entry that is
/// no string.
pub open spec fn interface_entry(interface: JsonModel) -> Seq<char> {
    match interface.as_str() {
        Some(name) => "    implement "@ + name + ";\n"@,
        None => Seq::empty(),
    }
}

/// The lines for the entries of `interfaces`, in order.
pub open spec fn interface_entries(interfaces: Seq<JsonModel>) -> Seq<char>
    decreases interfaces.len(),
{
    if interfaces.len() == 0 {
        Seq::empty()
    } else {
        interface_entries(interfaces.drop_last()) + interface_entry(interfaces.last())
    }
}

/// The lines that declare the interfaces; nothing where `interfaces` is no
/// array.
pub open spec fn interfaces_block(params: JsonModel) -> Seq<char> {
    match params.index("interfaces"@).as_array() {
        Some(interfaces) => interface_entries(interfaces),
        None => Seq::empty(),
    }
}

/// The device that `generate_device` writes: it inherits from
/// `template_base` (`base_device` where none is given) and holds the
/// registers and interfaces of the arguments.
pub open spec fn device_code(name: Seq<char>, device_type: Seq<char>, params: JsonModel) -> Seq<
    char,
> {
    "dml 1.4;\n\ndevice "@ + name + " : "@ + text_or(
        params.index("template_base"@),
        "base_device"@,
    ) + " {\n    /// Generated "@ + device_type + " device\n    \n"@ + registers_block(params)
        + interfaces_block(params) + "}\n"@
}

/// The line for one entry of `fields`: a field with its bits (`0` where
/// none are given) and its access mode (`rw` where none is given). An entry
/// without a name gives nothing.
pub open spec fn field_entry(field: JsonModel) -> Seq<char> {
    match field.index("name"@).as_str() {
        Some(name) => "    field "@ + name + " @ ["@ + text_or(field.index("bits"@), "0"@)
            + "] access "@ + text_or(field.index("access"@), "rw"@) + ";\n"@,
        None => Seq::empty(),
    }
}

/// The lines for the entries of `fields`, in order.
pub open spec fn field_entries(fields: Seq<JsonModel>) -> Seq<char>
    decreases fields.len(),
{
    if fields.len() == 0 {
        Seq::empty()
    } else {
        field_entries(fields.drop_last()) + field_entry(fields.last())
    }
}

/// The field section of a register; nothing where `fields` is no array.
pub open spec fn fields_block(params: JsonModel) -> Seq<char> {
    match params.index("fields"@).as_array() {
        Some(fields) => field_entries(fields),
        None => Seq::empty(),
    }
}

/// A fragment that is written only where `value` is a string: the prefix,
/// the string and the suffix.
pub open spec fn where_text(prefix: Seq<char>, value: JsonModel, suffix: Seq<char>) -> Seq<
    char,
> {
    match value.as_str() {
        Some(text) => prefix + text + suffix,
        None => Seq::empty(),
    }
}

/// The register that `generate_register` writes: the header with the
/// offset where one is given, the documentation where one is given, and
/// the fields.
pub open spec fn register_code(name: Seq<char>, size: nat, params: JsonModel) -> Seq<char> {
    "register "@ + name + " size "@ + decimal(size) + where_text(
        " @ "@,
        params.index("offset"@),
        Seq::empty(),
    ) + " {\n"@ + where_text("    /// "@, params.index("documentation"@), "\n"@) + fields_block(
        params,
    ) + "}\n"@
}

fn put_where_text(code: &mut String, prefix: &str, value: &Json, suffix: &str)
    ensures
        final(code)@ == old(code)@ + where_text(prefix@, value@, suffix@),
{
    match value.as_str() {
        Some(text) => {
            code.append(prefix);
            code.append(text);
            code.append(suffix);
            assert(code@ =~= old(code)@ + where_text(prefix@, value@, suffix@));
        },
        None => {
            assert(code@ =~= old(code)@ + where_text(prefix@, value@, suffix@));
        },
    }
}

fn put_text_or(code: &mut String, value: &Json, fallback: &str)
    ensures
        final(code)@ == old(code)@ + text_or(value@, fallback@),
{
    match value.as_str() {
        Some(text) => {
            code.append(text);
        },
        None => {
            code.append(fallback);
        },
    }
}

fn put_register_entry(code: &mut String, register: &Json)
    ensures
        final(code)@ == old(code)@ + register_entry(register@),
{
    match register.index("name").as_str() {
        Some(name) => match register.index("size").as_u64() {
            Some(size) => {
                code.append("        register ");
                code.append(name);
                code.append(" size ");
                code.append(decimal_text(size).as_str());
                code.append(" @ ");
                put_text_or(code, register.index("offset"), "undefined");
                code.append(";\n");
                assert(code@ =~= old(code)@ + register_entry(register@));
            },
            None => {
                assert(code@ =~= old(code)@ + register_entry(register@));
            },
        },
        None => {
            assert(code@ =~= old(code)@ + register_entry(register@));
        },
    }
}

fn put_registers_block(code: &mut String, params: &Json)
    ensures
        final(code)@ == old(code)@ + registers_block(params@),
{
    match params.index("registers").as_array() {
        Some(registers) => {
            let ghost all = registers.deep_view();
            code.append("    bank registers {\n");
            let ghost opened = code@;
            let mut i: usize = 0;
            assert(code@ =~= opened + register_entries(all.take(0)));
            while i < registers.len()
                invariant
                    i <= registers@.len(),
                    all == registers.deep_view(),
                    code@ == opened + register_entries(all.take(i as int)),
                decreases registers@.len() - i,
            {
                put_register_entry(code, &registers[i]);
                proof {
                    let upto = all.take(i + 1);
                    assert(upto.drop_last() =~= all.take(i as int));
                    assert(upto.last() == registers@[i as int]@);
                    assert(code@ =~= opened + register_entries(upto));
                }
                i = i + 1;
            }
            assert(all.take(i as int) =~= all);
            code.append("    }\n");
            assert(code@ =~= old(code)@ + registers_block(params@));
        },
        None => {
            assert(code@ =~= old(code)@ + registers_block(params@));
        },
    }
}

fn put_interfaces_block(code: &mut String, params: &Json)
    ensures
        final(code)@ == old(code)@ + interfaces_block(params@),
{
    match params.index("interfaces").as_array() {
        Some(interfaces) => {
            let ghost all = interfaces.deep_view();
            let mut i: usize = 0;
            assert(code@ =~= old(code)@ + interface_entries(all.take(0)));
            while i < interfaces.len()
                invariant
                    i <= interfaces@.len(),
                    all == interfaces.deep_view(),
                    code@ == old(code)@ + interface_entries(all.take(i as int)),
                decreases interfaces@.len() - i,
            {
                put_where_text(code, "    implement ", &interfaces[i], ";\n");
                proof {
                    let upto = all.take(i + 1);
                    assert(upto.drop_last() =~= all.take(i as int));
                    assert(upto.last() == interfaces@[i as int]@);
                    assert(interface_entry(interfaces@[i as int]@) == where_text(
                        "    implement "@,
                        interfaces@[i as int]@,
                        ";\n"@,
                    ));
                    assert(code@ =~= old(code)@ + interface_entries(upto));
                }
                i = i + 1;
            }
            assert(all.take(i as int) =~= all);
        },
        None => {
            assert(code@ =~= old(code)@ + interfaces_block(params@));
        },
    }
}

/// Writes the device that `generate_device` returns.
pub fn generate_device_code(name: &str, device_type: &str, params: &Json) -> (result: Result<
    String,
    ToolError,
>)
    ensures
        result is Ok,
        result->Ok_0@ == device_code(name@, device_type@, params@),
{
    let mut code = "dml 1.4;\n\ndevice ".to_string();
    code.append(name);
    code.append(" : ");
    put_text_or(&mut code, params.index("template_base"), "base_device");
    code.append(" {\n    /// Generated ");
    code.append(device_type);
    code.append(" device\n    \n");
    put_registers_block(&mut code, params);
    put_interfaces_block(&mut code, params);
    code.append("}\n");
    assert(code@ =~= device_code(name@, device_type@, params@));
    Ok(code)
}

fn put_field_entry(code: &mut String, field: &Json)
    ensures
        final(code)@ == old(code)@ + field_entry(field@),
{
    match field.index("name").as_str() {
        Some(name) => {
            code.append("    field ");
            code.append(name);
            code.append(" @ [");
            put_text_or(code, field.index("bits"), "0");
            code.append("] access ");
            put_text_or(code, field.index("access"), "rw");
            code.append(";\n");
            assert(code@ =~= old(code)@ + field_entry(field@));
        },
        None => {
            assert(code@ =~= old(code)@ + field_entry(field@));
        },
    }
}

fn put_fields_block(code: &mut String, params: &Json)
    ensures
        final(code)@ == old(code)@ + fields_block(params@),
{
    match params.index("fields").as_array() {
        Some(fields) => {
            let ghost all = fields.deep_view();
            let mut i: usize = 0;
            assert(code@ =~= old(code)@ + field_entries(all.take(0)));
            while i < fields.len()
                invariant
                    i <= fields@.len(),
                    all == fields.deep_view(),
                    code@ == old(code)@ + field_entries(all.take(i as int)),
                decreases fields@.len() - i,
            {
                put_field_entry(code, &fields[i]);
                proof {
                    let upto = all.take(i + 1);
                    assert(upto.drop_last() =~= all.take(i as int));
                    assert(upto.last() == fields@[i as int]@);
                    assert(code@ =~= old(code)@ + field_entries(upto));
                }
                i = i + 1;
            }
            assert(all.take(i as int) =~= all);
        },
        None => {
            assert(code@ =~= old(code)@ + fields_block(params@));
        },
    }
}

/// Writes the register that `generate_register` returns.
pub fn generate_register_code(name: &str, size: u64, params: &Json) -> (result: Result<
    String,
    ToolError,
>)
    ensures
        result is Ok,
        result->Ok_0@ == register_code(name@, size as nat, params@),
{
    let mut code = "register ".to_string();
    code.append(name);
    code.append(" size ");
    code.append(decimal_text(size).as_str());
    proof {
        reveal_strlit("");
    }
    assert(""@ =~= Seq::<char>::empty());
    put_where_text(&mut code, " @ ", params.index("offset"), "");
    code.append(" {\n");
    put_where_text(&mut code, "    /// ", params.index("documentation"), "\n");
    put_fields_block(&mut code, params);
    code.append("}\n");
    assert(code@ =~= register_code(name@, size as nat, params@));
    Ok(code)
}

/// A schema that fixes only the type of a value.
pub open spec fn typed(kind: Seq<char>) -> JsonModel {
    JsonModel::Object(seq![("type"@, JsonModel::Text(kind))])
}

/// A schema that fixes the type of a value and describes it.
pub open spec fn described(kind: Seq<char>, description: Seq<char>) -> JsonModel {
    JsonModel::Object(
        seq![("type"@, JsonModel::Text(kind)), ("description"@, JsonModel::Text(description))],
    )
}

/// A schema of an array: its description and the schema of its items.
pub open spec fn array_of(description: Seq<char>, items: JsonModel) -> JsonModel {
    JsonModel::Object(
        seq![
            ("type"@, JsonModel::Text("array"@)),
            ("description"@, JsonModel::Text(description)),
            ("items"@, items),
        ],
    )
}

/// A schema of an object: its properties, and the names of those that are
/// required where any are.
pub open spec fn object_of(
    properties: Seq<(Seq<char>, JsonModel)>,
    required: Option<Seq<JsonModel>>,
) -> JsonModel {
    match required {
        Some(names) => JsonModel::Object(
            seq![
                ("type"@, JsonModel::Text("object"@)),
                ("properties"@, JsonModel::Object(properties)),
                ("required"@, JsonModel::Array(names)),
            ],
        ),
        None => JsonModel::Object(
            seq![
                ("type"@, JsonModel::Text("object"@)),
                ("properties"@, JsonModel::Object(properties)),
            ],
        ),
    }
}

fn typed_schema(kind: &str) -> (schema: Json)
    ensures
        schema@ == typed(kind@),
{
    Json::object(list1(Member::new("type", Json::text(kind))))
}

fn described_schema(kind: &str, description: &str) -> (schema: Json)
    ensures
        schema@ == described(kind@, description@),
{
    Json::object(
        list2(
            Member::new("type", Json::text(kind)),
            Member::new("description", Json::text(description)),
        ),
    )
}

fn array_schema(description: &str, items: Json) -> (schema: Json)
    ensures
        schema@ == array_of(description@, items@),
{
    Json::object(
        list3(
            Member::new("type", Json::text("array")),
            Member::new("description", Json::text(description)),
            Member::new("items", items),
        ),
    )
}

fn object_schema(properties: Vec<Member>, required: Option<Vec<Json>>) -> (schema: Json)
    ensures
        schema@ == object_of(properties.deep_view(), required.deep_view()),
{
    match required {
        Some(names) => Json::object(
            list3(
                Member::new("type", Json::text("object")),
                Member::new("properties", Json::object(properties)),
                Member::new("required", Json::array(names)),
            ),
        ),
        None => Json::object(
            list2(
                Member::new("type", Json::text("object")),
                Member::new("properties", Json::object(properties)),
            ),
        ),
    }
}

/// The input schema of `generate_device`.
pub open spec fn device_schema() -> JsonModel {
    object_of(
        seq![
            ("device_name"@, described("string"@, "Name of the device to generate"@)),
            (
                "device_type"@,
                JsonModel::Object(
                    seq![
                        ("type"@, JsonModel::Text("string"@)),
                        (
                            "enum"@,
                            JsonModel::Array(
                                seq![
                                    JsonModel::Text("cpu"@),
                                    JsonModel::Text("memory"@),
                                    JsonModel::Text("peripheral"@),
                                    JsonModel::Text("custom"@),
                                ],
                            ),
                        ),
                        ("description"@, JsonModel::Text("Type of device to generate"@)),
                    ],
                ),
            ),
            (
                "registers"@,
                array_of(
                    "List of registers to include"@,
                    object_of(
                        seq![
                            ("name"@, typed("string"@)),
                            ("size"@, typed("integer"@)),
                            ("offset"@, typed("string"@)),
                        ],
                        None,
                    ),
                ),
            ),
            ("interfaces"@, array_of("Interfaces to implement"@, typed("string"@))),
            ("template_base"@, described("string"@, "Base template to inherit from"@)),
        ],
        Some(seq![JsonModel::Text("device_name"@), JsonModel::Text("device_type"@)]),
    )
}

/// What `generate_device` returns: the device as text, or the error that
/// names the argument that is missing. The name is looked at first.
pub open spec fn device_outcome(input: JsonModel) -> Result<ToolResultModel, ToolErrorModel> {
    match input.index("device_name"@).as_str() {
        Some(name) => match input.index("device_type"@).as_str() {
            Some(device_type) => Ok(text_result(device_code(name, device_type, input), None)),
            None => Err(ToolErrorModel::MissingDeviceType),
        },
        None => Err(ToolErrorModel::MissingDeviceName),
    }
}

/// The tool that generates a complete device.
pub struct GenerateDeviceTool;

impl GenerateDeviceTool {
    pub fn new() -> (tool: Self)
        ensures
            tool == GenerateDeviceTool,
    {
        Self
    }
}

impl DMLTool for GenerateDeviceTool {
    open spec fn name_model(&self) -> Seq<char> {
        "generate_device"@
    }

    open spec fn description_model(&self) -> Seq<char> {
        "Generate a complete DML device model with specified configuration"@
    }

    open spec fn schema_model(&self) -> JsonModel {
        device_schema()
    }

    open spec fn outcome(&self, input: JsonModel) -> Result<ToolResultModel, ToolErrorModel> {
        device_outcome(input)
    }

    fn name(&self) -> (name: &str) {
        "generate_device"
    }

    fn description(&self) -> (description: &str) {
        "Generate a complete DML device model with specified configuration"
    }

    fn input_schema(&self) -> (schema: Json) {
        let kinds = list4(
            Json::text("cpu"),
            Json::text("memory"),
            Json::text("peripheral"),
            Json::text("custom"),
        );
        let device_type = Json::object(
            list3(
                Member::new("type", Json::text("string")),
                Member::new("enum", Json::array(kinds)),
                Member::new("description", Json::text("Type of device to generate")),
            ),
        );
        let register = object_schema(
            list3(
                Member::new("name", typed_schema("string")),
                Member::new("size", typed_schema("integer")),
                Member::new("offset", typed_schema("string")),
            ),
            None,
        );
        let properties = list5(
            Member::new(
                "device_name",
                described_schema("string", "Name of the device to generate"),
            ),
            Member::new("device_type", device_type),
            Member::new("registers", array_schema("List of registers to include", register)),
            Member::new(
                "interfaces",
                array_schema("Interfaces to implement", typed_schema("string")),
            ),
            Member::new(
                "template_base",
                described_schema("string", "Base template to inherit from"),
            ),
        );
        object_schema(
            properties,
            Some(list2(Json::text("device_name"), Json::text("device_type"))),
        )
    }

    fn execute(&self, input: &Json) -> (outcome: Result<ToolResult, ToolError>) {
        match input.index("device_name").as_str() {
            Some(device_name) => match input.index("device_type").as_str() {
                Some(device_type) => match generate_device_code(device_name, device_type, input) {
                    Ok(code) => Ok(ToolResult::from_text(code, None)),
                    Err(error) => Err(error),
                },
                None => Err(ToolError::MissingDeviceType),
            },
            None => Err(ToolError::MissingDeviceName),
        }
    }
}

/// The input schema of `generate_register`.
pub open spec fn register_schema() -> JsonModel {
    object_of(
        seq![
            ("name"@, described("string"@, "Name of the register"@)),
            ("size"@, described("integer"@, "Size of the register in bytes"@)),
            ("offset"@, described("string"@, "Offset address (e.g., '0x100')"@)),
            (
                "fields"@,
                array_of(
                    "Register fields"@,
                    object_of(
                        seq![
                            ("name"@, typed("string"@)),
                            ("bits"@, typed("string"@)),
                            ("access"@, typed("string"@)),
                        ],
                        None,
                    ),
                ),
            ),
            ("documentation"@, described("string"@, "Documentation for the register"@)),
        ],
        Some(seq![JsonModel::Text("name"@), JsonModel::Text("size"@)]),
    )
}

/// What `generate_register` returns: the register as text, or the error
/// that names the argument that is missing. The name is looked at first.
pub open spec fn register_outcome(input: JsonModel) -> Result<ToolResultModel, ToolErrorModel> {
    match input.index("name"@).as_str() {
        Some(name) => match input.index("size"@).as_u64() {
            Some(size) => Ok(text_result(register_code(name, size as nat, input), None)),
            None => Err(ToolErrorModel::InvalidRegisterSize),
        },
        None => Err(ToolErrorModel::MissingRegisterName),
    }
}

/// The tool that generates a register with its fields.
pub struct GenerateRegisterTool;

impl GenerateRegisterTool {
    pub fn new() -> (tool: Self)
        ensures
            tool == GenerateRegisterTool,
    {
        Self
    }
}

impl DMLTool for GenerateRegisterTool {
    open spec fn name_model(&self) -> Seq<char> {
        "generate_register"@
    }

    open spec fn description_model(&self) -> Seq<char> {
        "Generate a DML register with specified fields and properties"@
    }

    open spec fn schema_model(&self) -> JsonModel {
        register_schema()
    }

    open spec fn outcome(&self, input: JsonModel) -> Result<ToolResultModel, ToolErrorModel> {
        register_outcome(input)
    }

    fn name(&self) -> (name: &str) {
        "generate_register"
    }

    fn description(&self) -> (description: &str) {
        "Generate a DML register with specified fields and properties"
    }

    fn input_schema(&self) -> (schema: Json) {
        let field = object_schema(
            list3(
                Member::new("name", typed_schema("string")),
                Member::new("bits", typed_schema("string")),
                Member::new("access", typed_schema("string")),
            ),
            None,
        );
        let properties = list5(
            Member::new("name", described_schema("string", "Name of the register")),
            Member::new("size", described_schema("integer", "Size of the register in bytes")),
            Member::new("offset", described_schema("string", "Offset address (e.g., '0x100')")),
            Member::new("fields", array_schema("Register fields", field)),
            Member::new(
                "documentation",
                described_schema("string", "Documentation for the register"),
            ),
        );
        object_schema(properties, Some(list2(Json::text("name"), Json::text("size"))))
    }

    fn execute(&self, input: &Json) -> (outcome: Result<ToolResult, ToolError>) {
        match input.index("name").as_str() {
            Some(register_name) => match input.index("size").as_u64() {
                Some(size) => match generate_register_code(register_name, size, input) {
                    Ok(code) => Ok(ToolResult::from_text(code, None)),
                    Err(error) => Err(error),
                },
                None => Err(ToolError::InvalidRegisterSize),
            },
            None => Err(ToolError::MissingRegisterName),
        }
    }
}

/// A tool that is announced and not implemented yet. It accepts any input
/// and answers that it is not implemented, which is no error.
#[derive(Debug, Clone, Copy)]
pub struct PlaceholderTool {
    pub name: &'static str,
    pub description: &'static str,
}

/// What a placeholder tool of the given name returns, whatever its input.
pub open spec fn placeholder_result(name: Seq<char>) -> ToolResultModel {
    text_result("Tool '"@ + name + "' is not yet implemented"@, Some(false))
}

impl PlaceholderTool {
    /// A placeholder for the tool of the given name.
    pub fn new(name: &'static str, description: &'static str) -> (tool: Self)
        ensures
            tool == (PlaceholderTool { name, description }),
    {
        PlaceholderTool { name, description }
    }
}

impl DMLTool for PlaceholderTool {
    open spec fn name_model(&self) -> Seq<char> {
        self.name@
    }

    open spec fn description_model(&self) -> Seq<char> {
        self.description@
    }

    open spec fn schema_model(&self) -> JsonModel {
        object_of(Seq::empty(), None)
    }

    open spec fn outcome(&self, input: JsonModel) -> Result<ToolResultModel, ToolErrorModel> {
        Ok(placeholder_result(self.name@))
    }

    fn name(&self) -> (name: &str) {
        self.name
    }

    fn description(&self) -> (description: &str) {
        self.description
    }

    fn input_schema(&self) -> (schema: Json) {
        object_schema(list0(), None)
    }

    fn execute(&self, _input: &Json) -> (outcome: Result<ToolResult, ToolError>) {
        let mut text = "Tool '".to_string();
        text.append(self.name);
        text.append("' is not yet implemented");
        Ok(ToolResult::from_text(text, Some(false)))
    }
}

/// A built-in tool: the closed set of tools that a new registry holds.
pub enum BuiltinTool {
    GenerateDevice(GenerateDeviceTool),
    GenerateRegister(GenerateRegisterTool),
    Placeholder(PlaceholderTool),
}

impl DMLTool for BuiltinTool {
    open spec fn name_model(&self) -> Seq<char> {
        match self {
            BuiltinTool::GenerateDevice(tool) => tool.name_model(),
            BuiltinTool::GenerateRegister(tool) => tool.name_model(),
            BuiltinTool::Placeholder(tool) => tool.name_model(),
        }
    }

    open spec fn description_model(&self) -> Seq<char> {
        match self {
            BuiltinTool::GenerateDevice(tool) => tool.description_model(),
            BuiltinTool::GenerateRegister(tool) => tool.description_model(),
            BuiltinTool::Placeholder(tool) => tool.description_model(),
        }
    }

    open spec fn schema_model(&self) -> JsonModel {
        match self {
            BuiltinTool::GenerateDevice(tool) => tool.schema_model(),
            BuiltinTool::GenerateRegister(tool) => tool.schema_model(),
            BuiltinTool::Placeholder(tool) => tool.schema_model(),
        }
    }

    open spec fn outcome(&self, input: JsonModel) -> Result<ToolResultModel, ToolErrorModel> {
        match self {
            BuiltinTool::GenerateDevice(tool) => tool.outcome(input),
            BuiltinTool::GenerateRegister(tool) => tool.outcome(input),
            BuiltinTool::Placeholder(tool) => tool.outcome(input),
        }
    }

    fn name(&self) -> (name: &str) {
        match self {
            BuiltinTool::GenerateDevice(tool) => tool.name(),
            BuiltinTool::GenerateRegister(tool) => tool.name(),
            BuiltinTool::Placeholder(tool) => tool.name(),
        }
    }

    fn description(&self) -> (description: &str) {
        match self {
            BuiltinTool::GenerateDevice(tool) => tool.description(),
            BuiltinTool::GenerateRegister(tool) => tool.description(),
            BuiltinTool::Placeholder(tool) => tool.description(),
        }
    }

    fn input_schema(&self) -> (schema: Json) {
        match self {
            BuiltinTool::GenerateDevice(tool) => tool.input_schema(),
            BuiltinTool::GenerateRegister(tool) => tool.input_schema(),
            BuiltinTool::Placeholder(tool) => tool.input_schema(),
        }
    }

    fn execute(&self, input: &Json) -> (outcome: Result<ToolResult, ToolError>) {
        match self {
            BuiltinTool::GenerateDevice(tool) => tool.execute(input),
            BuiltinTool::GenerateRegister(tool) => tool.execute(input),
            BuiltinTool::Placeholder(tool) => tool.execute(input),
        }
    }
}

/// The built-in tools in the order in which a new registry holds them.
pub open spec fn builtin_tools() -> Seq<BuiltinTool> {
    seq![
        BuiltinTool::GenerateDevice(GenerateDeviceTool),
        BuiltinTool::GenerateRegister(GenerateRegisterTool),
        BuiltinTool::Placeholder(
            PlaceholderTool {
                name: "generate_method",
                description: "Generate DML method implementation",
            },
        ),
        BuiltinTool::Placeholder(
            PlaceholderTool {
                name: "analyze_project",
                description: "Analyze existing DML project structure",
            },
        ),
        BuiltinTool::Placeholder(
            PlaceholderTool {
                name: "validate_code",
                description: "Validate DML code syntax and semantics",
            },
        ),
        BuiltinTool::Placeholder(
            PlaceholderTool {
                name: "generate_template",
                description: "Generate reusable DML templates",
            },
        ),
        BuiltinTool::Placeholder(
            PlaceholderTool {
                name: "apply_pattern",
                description: "Apply common DML design patterns",
            },
        ),
    ]
}

/// The names of the built-in tools, in the same order.
pub open spec fn builtin_names() -> Seq<Seq<char>> {
    seq![
        "generate_device"@,
        "generate_register"@,
        "generate_method"@,
        "analyze_project"@,
        "validate_code"@,
        "generate_template"@,
        "apply_pattern"@,
    ]
}

/// The place of the first tool in `tools` that has the name `name`.
pub open spec fn position<T: DMLTool>(tools: Seq<T>, name: Seq<char>) -> Option<int>
    decreases tools.len(),
{
    if tools.len() == 0 {
        None
    } else {
        match position(tools.drop_last(), name) {
            Some(i) => Some(i),
            None => if tools.last().name_model() == name {
                Some(tools.len() - 1)
            } else {
                None
            },
        }
    }
}

/// `position` finds a tool of the name, and the first one; it finds none
/// only where no tool has the name.
pub proof fn lemma_position<T: DMLTool>(tools: Seq<T>, name: Seq<char>)
    ensures
        match position(tools, name) {
            Some(i) => {
                &&& 0 <= i < tools.len()
                &&& tools[i].name_model() == name
                &&& forall|j: int| 0 <= j < i ==> tools[j].name_model() != name
            },
            None => forall|j: int| 0 <= j < tools.len() ==> tools[j].name_model() != name,
        },
    decreases tools.len(),
{
    if tools.len() > 0 {
        let init = tools.drop_last();
        lemma_position(init, name);
        match position(init, name) {
            Some(i) => {
                assert(init[i] == tools[i]);
                assert forall|j: int| 0 <= j < i implies tools[j].name_model() != name by {
                    assert(init[j] == tools[j]);
                }
            },
            None => {
                assert forall|j: int| 0 <= j < tools.len() - 1 implies tools[j].name_model()
                    != name by {
                    assert(init[j] == tools[j]);
                }
            },
        }
    }
}

/// The tools after `tool` was registered: it stands in the place of the
/// tool that had its name, or at the end where no tool had it.
pub open spec fn registered<T: DMLTool>(tools: Seq<T>, tool: T) -> Seq<T> {
    match position(tools, tool.name_model()) {
        Some(i) => tools.update(i, tool),
        None => tools.push(tool),
    }
}

/// No two tools have the same name.
pub open spec fn distinct_names<T: DMLTool>(tools: Seq<T>) -> bool {
    forall|i: int, j: int|
        0 <= i < j < tools.len() ==> tools[i].name_model() != tools[j].name_model()
}

/// Registering a tool keeps the names distinct.
pub proof fn lemma_registered_distinct<T: DMLTool>(tools: Seq<T>, tool: T)
    requires
        distinct_names(tools),
    ensures
        distinct_names(registered(tools, tool)),
{
    let after = registered(tools, tool);
    lemma_position(tools, tool.name_model());
    match position(tools, tool.name_model()) {
        Some(place) => {
            assert forall|i: int, j: int| 0 <= i < j < after.len() implies after[i].name_model()
                != after[j].name_model() by {
                assert(after[i].name_model() == tools[i].name_model());
                assert(after[j].name_model() == tools[j].name_model());
            }
        },
        None => {
            assert forall|i: int, j: int| 0 <= i < j < after.len() implies after[i].name_model()
                != after[j].name_model() by {
                assert(after[i] == tools[i]);
                if j < tools.len() {
                    assert(after[j] == tools[j]);
                } else {
                    assert(after[j] == tool);
                }
            }
        },
    }
}

/// A tool as it is listed.
pub open spec fn definition_of<T: DMLTool>(tool: T) -> ToolDefinitionModel {
    ToolDefinitionModel {
        name: tool.name_model(),
        description: tool.description_model(),
        input_schema: tool.schema_model(),
    }
}

/// The listing of tools: the definition of each, in order.
pub open spec fn listing_of<T: DMLTool>(tools: Seq<T>) -> Seq<ToolDefinitionModel> {
    Seq::new(tools.len(), |i: int| definition_of(tools[i]))
}

/// What a call with the parameters `params` returns. The parameters must
/// hold the tool's name as a string under `name` and the arguments under
/// `arguments`, and a tool must be registered under the name; these are
/// looked at in this order. The tool's result is returned as JSON, its
/// error as it is.
pub open spec fn call_outcome<T: DMLTool>(tools: Seq<T>, params: JsonModel) -> Result<
    JsonModel,
    ToolErrorModel,
> {
    match params.index("name"@).as_str() {
        Some(name) => match params.get("arguments"@) {
            Some(arguments) => match position(tools, name) {
                Some(i) => match tools[i].outcome(arguments) {
                    Ok(result) => Ok(result_json(result)),
                    Err(error) => Err(error),
                },
                None => Err(ToolErrorModel::UnknownTool(name)),
            },
            None => Err(ToolErrorModel::MissingToolArguments),
        },
        None => Err(ToolErrorModel::MissingToolName),
    }
}

/// The names of the built-in tools are the built-in names, and they differ
/// from one another.
pub proof fn lemma_builtin_names()
    ensures
        builtin_tools().len() == 7,
        builtin_names().len() == 7,
        forall|i: int|
            0 <= i < 7 ==> (#[trigger] builtin_tools()[i]).name_model() == builtin_names()[i],
        distinct_names(builtin_tools()),
{
    reveal_strlit("generate_device");
    reveal_strlit("generate_register");
    reveal_strlit("generate_method");
    reveal_strlit("analyze_project");
    reveal_strlit("validate_code");
    reveal_strlit("generate_template");
    reveal_strlit("apply_pattern");
    let names = builtin_names();
    assert(names[0].len() == 15 && names[2].len() == 15 && names[3].len() == 15);
    assert(names[1].len() == 17 && names[5].len() == 17);
    assert(names[4].len() == 13 && names[6].len() == 13);
    assert(names[0][9] == 'd' && names[2][9] == 'm');
    assert(names[0][0] == 'g' && names[2][0] == 'g' && names[3][0] == 'a');
    assert(names[1][9] == 'r' && names[5][9] == 't');
    assert(names[4][0] == 'v' && names[6][0] == 'a');
    assert forall|i: int| 0 <= i < 7 implies (#[trigger] builtin_tools()[i]).name_model()
        == names[i] by {}
    assert forall|i: int, j: int| 0 <= i < j < builtin_tools().len() implies builtin_tools()[i]
        .name_model() != builtin_tools()[j].name_model() by {
        assert(builtin_tools()[i].name_model() == names[i]);
        assert(builtin_tools()[j].name_model() == names[j]);
        assert(names[i] != names[j]);
    }
}

/// The tools that can be called, one under each name.
pub struct ToolRegistry<T: DMLTool = BuiltinTool> {
    tools: Vec<T>,
}

impl<T: DMLTool> ToolRegistry<T> {
    /// The registered tools, in the order in which their names were first
    /// registered.
    pub closed spec fn tools(&self) -> Seq<T> {
        self.tools@
    }

    /// No two registered tools have the same name.
    pub open spec fn well_formed(&self) -> bool {
        distinct_names(self.tools())
    }

    /// A registry without tools.
    pub fn empty() -> (registry: ToolRegistry<T>)
        ensures
            registry.tools() == Seq::<T>::empty(),
            registry.well_formed(),
    {
        ToolRegistry { tools: Vec::new() }
    }

    /// Registers a tool under its name. A tool that was registered under
    /// the same name is replaced in its place; no error is raised.
    pub fn register_tool(&mut self, tool: T) -> (result: Result<(), ToolError>)
        ensures
            result is Ok,
            final(self).tools() == registered(old(self).tools(), tool),
            old(self).well_formed() ==> final(self).well_formed(),
    {
        proof {
            lemma_position(self.tools(), tool.name_model());
            if self.well_formed() {
                lemma_registered_distinct(self.tools(), tool);
            }
        }
        match self.find(tool.name()) {
            Some(i) => {
                self.tools.set(i, tool);
            },
            None => {
                self.tools.push(tool);
            },
        }
        Ok(())
    }

    fn find(&self, name: &str) -> (place: Option<usize>)
        ensures
            match place {
                Some(i) => position(self.tools(), name@) == Some(i as int),
                None => position(self.tools(), name@) is None,
            },
    {
        let ghost all = self.tools();
        let mut i: usize = 0;
        while i < self.tools.len()
            invariant
                i <= self.tools@.len(),
                all == self.tools@,
                forall|j: int| 0 <= j < i ==> all[j].name_model() != name@,
            decreases self.tools@.len() - i,
        {
            if crate::text::same_text(self.tools[i].name(), name) {
                proof {
                    lemma_position(all, name@);
                }
                return Some(i);
            }
            i = i + 1;
        }
        proof {
            lemma_position(all, name@);
        }
        None
    }

    /// The definitions of the registered tools, in the registry's order.
    pub fn list_tools(&self) -> (definitions: Vec<ToolDefinition>)
        ensures
            definitions.deep_view() == listing_of(self.tools()),
            definitions@.len() == self.tools().len(),
    {
        let mut definitions: Vec<ToolDefinition> = Vec::new();
        let mut i: usize = 0;
        while i < self.tools.len()
            invariant
                i <= self.tools@.len(),
                definitions@.len() == i,
                forall|j: int| 0 <= j < i ==> definitions@[j]@ == definition_of(self.tools@[j]),
            decreases self.tools@.len() - i,
        {
            let tool = &self.tools[i];
            definitions.push(
                ToolDefinition {
                    name: tool.name().to_string(),
                    description: tool.description().to_string(),
                    input_schema: tool.input_schema(),
                },
            );
            i = i + 1;
        }
        assert(definitions.deep_view() =~= listing_of(self.tools()));
        definitions
    }

    /// Calls the tool that the parameters name, with the arguments that
    /// they hold.
    pub fn call_tool(&self, params: &Json) -> (reply: Result<Json, ToolError>)
        ensures
            reply_model(reply) == call_outcome(self.tools(), params@),
    {
        let tool_name = match params.index("name").as_str() {
            Some(name) => name,
            None => {
                return Err(ToolError::MissingToolName);
            },
        };
        let arguments = match params.get("arguments") {
            Some(arguments) => arguments,
            None => {
                return Err(ToolError::MissingToolArguments);
            },
        };
        proof {
            lemma_position(self.tools(), tool_name@);
        }
        match self.find(tool_name) {
            Some(i) => match self.tools[i].execute(arguments) {
                Ok(result) => Ok(result.to_json()),
                Err(error) => Err(error),
            },
            None => Err(ToolError::UnknownTool(tool_name.to_string())),
        }
    }
}

impl ToolRegistry<BuiltinTool> {
    /// A registry that holds the built-in tools.
    pub fn new() -> (result: Result<ToolRegistry<BuiltinTool>, ToolError>)
        ensures
            result is Ok,
            result->Ok_0.tools() == builtin_tools(),
            result->Ok_0.well_formed(),
    {
        let mut registry = ToolRegistry::empty();
        match registry.register_builtin_tools() {
            Ok(_) => Ok(registry),
            Err(error) => Err(error),
        }
    }

    /// Registers the built-in tools in a registry that holds none.
    fn register_builtin_tools(&mut self) -> (result: Result<(), ToolError>)
        requires
            old(self).tools().len() == 0,
        ensures
            result is Ok,
            final(self).tools() == builtin_tools(),
            final(self).well_formed(),
    {
        let ghost all = builtin_tools();
        proof {
            lemma_builtin_names();
            assert(self.tools() =~= all.take(0));
        }
        self.put_builtin(BuiltinTool::GenerateDevice(GenerateDeviceTool::new()), Ghost(0));
        self.put_builtin(BuiltinTool::GenerateRegister(GenerateRegisterTool::new()), Ghost(1));
        self.put_builtin(
            BuiltinTool::Placeholder(
                PlaceholderTool::new("generate_method", "Generate DML method implementation"),
            ),
            Ghost(2),
        );
        self.put_builtin(
            BuiltinTool::Placeholder(
                PlaceholderTool::new("analyze_project", "Analyze existing DML project structure"),
            ),
            Ghost(3),
        );
        self.put_builtin(
            BuiltinTool::Placeholder(
                PlaceholderTool::new("validate_code", "Validate DML code syntax and semantics"),
            ),
            Ghost(4),
        );
        self.put_builtin(
            BuiltinTool::Placeholder(
                PlaceholderTool::new("generate_template", "Generate reusable DML templates"),
            ),
            Ghost(5),
        );
        self.put_builtin(
            BuiltinTool::Placeholder(
                PlaceholderTool::new("apply_pattern", "Apply common DML design patterns"),
            ),
            Ghost(6),
        );
        proof {
            assert(all.take(7) =~= all);
        }
        Ok(())
    }

    fn put_builtin(&mut self, tool: BuiltinTool, Ghost(place): Ghost<int>)
        requires
            0 <= place < builtin_tools().len(),
            old(self).tools() == builtin_tools().take(place),
            tool == builtin_tools()[place],
            distinct_names(builtin_tools()),
        ensures
            final(self).tools() == builtin_tools().take(place + 1),
    {
        let ghost all = builtin_tools();
        proof {
            lemma_position(self.tools(), tool.name_model());
            assert forall|j: int| 0 <= j < place implies self.tools()[j].name_model()
                != tool.name_model() by {
                assert(self.tools()[j] == all[j]);
            }
            assert(position(self.tools(), tool.name_model()) is None);
        }
        let _ = self.register_tool(tool);
        proof {
            assert(self.tools() =~= all.take(place + 1));
        }
    }
}

} // verus!
