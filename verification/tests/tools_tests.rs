//! Tests of the tools, the registry, the pattern library and the JSON data.

use dml_mcp::json::{Json, Member, Number};
use dml_mcp::templates::{DMLSnippets, DMLTemplates, Pattern};
use dml_mcp::tools::{
    generate_device_code, generate_register_code, BuiltinTool, DMLTool, GenerateDeviceTool,
    GenerateRegisterTool, PlaceholderTool, ToolError, ToolRegistry, ToolResult,
};

const BUILTIN: [&str; 7] = [
    "generate_device",
    "generate_register",
    "generate_method",
    "analyze_project",
    "validate_code",
    "generate_template",
    "apply_pattern",
];

fn object(members: Vec<(&str, Json)>) -> Json {
    Json::object(members.into_iter().map(|(k, v)| Member::new(k, v)).collect())
}

fn call(name: &str, arguments: Json) -> Json {
    object(vec![("name", Json::text(name)), ("arguments", arguments)])
}

fn only_text(result: &Json) -> String {
    let content = result.index("content").as_array().unwrap();
    assert_eq!(content.len(), 1);
    assert_eq!(content[0].index("type").as_str(), Some("text"));
    content[0].index("text").as_str().unwrap().to_string()
}

fn names(registry: &ToolRegistry) -> Vec<String> {
    registry.list_tools().into_iter().map(|d| d.name).collect()
}

#[test]
fn a_new_registry_lists_every_builtin_tool_once() {
    let registry = ToolRegistry::new().unwrap();
    assert_eq!(names(&registry), BUILTIN);
    for name in BUILTIN {
        assert_eq!(names(&registry).iter().filter(|n| n.as_str() == name).count(), 1);
    }
    // Calls, failed or not, do not change the listing.
    assert!(registry.call_tool(&call("validate_code", object(vec![]))).is_ok());
    assert!(registry.call_tool(&call("nope", object(vec![]))).is_err());
    assert_eq!(names(&registry), BUILTIN);
}

#[test]
fn a_listed_tool_has_description_and_schema() {
    let registry = ToolRegistry::new().unwrap();
    let listing = registry.list_tools();
    assert_eq!(
        listing[0].description,
        "Generate a complete DML device model with specified configuration"
    );
    assert_eq!(listing[0].input_schema, GenerateDeviceTool::new().input_schema());
    assert_eq!(listing[4].description, "Validate DML code syntax and semantics");
    assert_eq!(
        listing[4].input_schema,
        object(vec![("type", Json::text("object")), ("properties", object(vec![]))])
    );
}

#[test]
fn registering_a_name_again_replaces_the_tool() {
    let mut registry = ToolRegistry::new().unwrap();
    let newer = PlaceholderTool::new("generate_method", "A later description");
    assert!(registry.register_tool(BuiltinTool::Placeholder(newer)).is_ok());
    assert_eq!(names(&registry), BUILTIN);
    assert_eq!(registry.list_tools()[2].description, "A later description");

    let added = PlaceholderTool::new("format_code", "Format DML code");
    assert!(registry.register_tool(BuiltinTool::Placeholder(added)).is_ok());
    assert_eq!(registry.list_tools().len(), 8);
    assert_eq!(registry.list_tools()[7].name, "format_code");
    let reply = registry.call_tool(&call("format_code", Json::Null)).unwrap();
    assert_eq!(only_text(&reply), "Tool 'format_code' is not yet implemented");
}

#[test]
fn an_empty_registry_knows_no_tool() {
    let registry: ToolRegistry = ToolRegistry::empty();
    assert!(registry.list_tools().is_empty());
    match registry.call_tool(&call("generate_device", object(vec![]))) {
        Err(ToolError::UnknownTool(name)) => assert_eq!(name, "generate_device"),
        other => panic!("{:?}", other),
    }
}

#[test]
fn a_call_needs_a_name_arguments_and_a_registered_tool() {
    let registry = ToolRegistry::new().unwrap();

    let error = registry.call_tool(&object(vec![("arguments", object(vec![]))])).unwrap_err();
    assert!(matches!(error, ToolError::MissingToolName));
    assert_eq!(error.message(), "Missing tool name");

    let error = registry
        .call_tool(&object(vec![("name", Json::unsigned(3)), ("arguments", object(vec![]))]))
        .unwrap_err();
    assert!(matches!(error, ToolError::MissingToolName));

    let error = registry.call_tool(&Json::Null).unwrap_err();
    assert!(matches!(error, ToolError::MissingToolName));

    let error = registry.call_tool(&object(vec![("name", Json::text("nope"))])).unwrap_err();
    assert!(matches!(error, ToolError::MissingToolArguments));
    assert_eq!(error.message(), "Missing tool arguments");

    let error = registry.call_tool(&call("nope", object(vec![]))).unwrap_err();
    assert!(matches!(error, ToolError::UnknownTool(_)));
    assert_eq!(error.message(), "Unknown tool: nope");
}

#[test]
fn generate_register_writes_the_offset_and_no_field() {
    let registry = ToolRegistry::new().unwrap();
    let arguments = object(vec![
        ("name", Json::text("status")),
        ("size", Json::unsigned(4)),
        ("offset", Json::text("0x04")),
    ]);
    let reply = registry.call_tool(&call("generate_register", arguments)).unwrap();
    let text = only_text(&reply);
    assert!(text.contains("register status size 4 @ 0x04"));
    assert!(!text.contains("field"));
    assert_eq!(text, "register status size 4 @ 0x04 {\n}\n");
    assert_eq!(reply.get("isError"), None);
}

#[test]
fn generate_register_writes_documentation_and_fields() {
    let params = object(vec![
        ("documentation", Json::text("Control")),
        (
            "fields",
            Json::array(vec![
                object(vec![
                    ("name", Json::text("enable")),
                    ("bits", Json::text("0")),
                    ("access", Json::text("ro")),
                ]),
                object(vec![("name", Json::text("mode"))]),
                object(vec![("bits", Json::text("9"))]),
                Json::text("skipped"),
            ]),
        ),
    ]);
    assert_eq!(
        generate_register_code("ctrl", 8, &params).unwrap(),
        "register ctrl size 8 {\n    /// Control\n    field enable @ [0] access ro;\n    field mode @ [0] access rw;\n}\n"
    );
    assert_eq!(generate_register_code("r", 1, &Json::Null).unwrap(), "register r size 1 {\n}\n");
}

#[test]
fn generate_register_names_what_is_missing() {
    let tool = GenerateRegisterTool::new();
    assert_eq!(tool.name(), "generate_register");
    assert_eq!(tool.description(), "Generate a DML register with specified fields and properties");

    let error = tool.execute(&object(vec![("size", Json::unsigned(4))])).unwrap_err();
    assert!(matches!(error, ToolError::MissingRegisterName));
    assert_eq!(error.message(), "Missing register name");

    for size in [Json::text("4"), Json::Number(Number::NegInt(-4)), Json::Number(Number::Float(0))]
    {
        let error =
            tool.execute(&object(vec![("name", Json::text("r")), ("size", size)])).unwrap_err();
        assert!(matches!(error, ToolError::InvalidRegisterSize));
        assert_eq!(error.message(), "Missing or invalid register size");
    }
    let error = tool.execute(&object(vec![("name", Json::text("r"))])).unwrap_err();
    assert!(matches!(error, ToolError::InvalidRegisterSize));
}

#[test]
fn generate_device_writes_registers_and_interfaces() {
    let arguments = object(vec![
        ("device_name", Json::text("uart")),
        ("device_type", Json::text("peripheral")),
        ("template_base", Json::text("serial_device")),
        (
            "registers",
            Json::array(vec![
                object(vec![
                    ("name", Json::text("ctrl")),
                    ("size", Json::unsigned(4)),
                    ("offset", Json::text("0x00")),
                ]),
                object(vec![("name", Json::text("data")), ("size", Json::unsigned(1))]),
                object(vec![("name", Json::text("no_size"))]),
            ]),
        ),
        ("interfaces", Json::array(vec![Json::text("io_memory"), Json::unsigned(1)])),
    ]);
    let result = GenerateDeviceTool::new().execute(&arguments).unwrap();
    assert_eq!(result.is_error, None);
    assert_eq!(result.content.len(), 1);
    assert_eq!(result.content[0].content_type, "text");
    assert_eq!(
        result.content[0].text,
        "dml 1.4;\n\ndevice uart : serial_device {\n    /// Generated peripheral device\n    \n    bank registers {\n        register ctrl size 4 @ 0x00;\n        register data size 1 @ undefined;\n    }\n    implement io_memory;\n}\n"
    );
}

#[test]
fn generate_device_has_defaults() {
    assert_eq!(
        generate_device_code("d", "custom", &object(vec![])).unwrap(),
        "dml 1.4;\n\ndevice d : base_device {\n    /// Generated custom device\n    \n}\n"
    );
    let empty = object(vec![("registers", Json::array(vec![]))]);
    assert_eq!(
        generate_device_code("d", "cpu", &empty).unwrap(),
        "dml 1.4;\n\ndevice d : base_device {\n    /// Generated cpu device\n    \n    bank registers {\n    }\n}\n"
    );
}

#[test]
fn generate_device_names_what_is_missing() {
    let tool = GenerateDeviceTool::new();
    assert_eq!(tool.name(), "generate_device");
    let error = tool.execute(&object(vec![("device_type", Json::text("cpu"))])).unwrap_err();
    assert!(matches!(error, ToolError::MissingDeviceName));
    assert_eq!(error.message(), "Missing device_name");
    let error = tool.execute(&object(vec![("device_name", Json::text("d"))])).unwrap_err();
    assert!(matches!(error, ToolError::MissingDeviceType));
    assert_eq!(error.message(), "Missing device_type");
}

#[test]
fn the_device_schema_is_written_out() {
    let schema = GenerateDeviceTool::new().input_schema();
    assert_eq!(schema.index("type").as_str(), Some("object"));
    assert_eq!(
        schema.index("required"),
        &Json::array(vec![Json::text("device_name"), Json::text("device_type")])
    );
    let properties = schema.index("properties");
    assert_eq!(
        properties.index("device_name"),
        &object(vec![
            ("type", Json::text("string")),
            ("description", Json::text("Name of the device to generate")),
        ])
    );
    assert_eq!(
        properties.index("device_type").index("enum"),
        &Json::array(vec![
            Json::text("cpu"),
            Json::text("memory"),
            Json::text("peripheral"),
            Json::text("custom"),
        ])
    );
    assert_eq!(
        properties.index("registers").index("items").index("properties").index("size"),
        &object(vec![("type", Json::text("integer"))])
    );
    assert_eq!(
        properties.index("interfaces"),
        &object(vec![
            ("type", Json::text("array")),
            ("description", Json::text("Interfaces to implement")),
            ("items", object(vec![("type", Json::text("string"))])),
        ])
    );
    assert_eq!(
        properties.index("template_base").index("description").as_str(),
        Some("Base template to inherit from")
    );
}

#[test]
fn the_register_schema_is_written_out() {
    let schema = GenerateRegisterTool::new().input_schema();
    assert_eq!(schema.index("required"), &Json::array(vec![Json::text("name"), Json::text("size")]));
    let properties = schema.index("properties");
    assert_eq!(
        properties.index("offset").index("description").as_str(),
        Some("Offset address (e.g., '0x100')")
    );
    assert_eq!(properties.index("size").index("type").as_str(), Some("integer"));
    assert_eq!(
        properties.index("fields").index("items").index("properties").index("access"),
        &object(vec![("type", Json::text("string"))])
    );
    assert_eq!(properties.index("fields").index("description").as_str(), Some("Register fields"));
    assert_eq!(
        properties.index("documentation").index("description").as_str(),
        Some("Documentation for the register")
    );
}

#[test]
fn a_placeholder_says_that_it_is_not_implemented() {
    let tool = PlaceholderTool::new("analyze_project", "Analyze existing DML project structure");
    assert_eq!(tool.name(), "analyze_project");
    assert_eq!(tool.description(), "Analyze existing DML project structure");
    let result = tool.execute(&Json::Null).unwrap();
    assert_eq!(result.is_error, Some(false));
    assert_eq!(result.content[0].text, "Tool 'analyze_project' is not yet implemented");
    assert_eq!(
        result.to_json(),
        object(vec![
            (
                "content",
                Json::array(vec![object(vec![
                    ("type", Json::text("text")),
                    ("text", Json::text("Tool 'analyze_project' is not yet implemented")),
                ])]),
            ),
            ("isError", Json::Bool(false)),
        ])
    );
}

#[test]
fn a_result_without_flag_has_no_flag_as_json() {
    let result = ToolResult::from_text("t".to_string(), None);
    assert_eq!(
        result.to_json(),
        object(vec![(
            "content",
            Json::array(vec![object(vec![
                ("type", Json::text("text")),
                ("text", Json::text("t")),
            ])]),
        )])
    );
    assert_eq!(result.content[0].to_json().index("text").as_str(), Some("t"));
}

#[test]
fn json_lookup_finds_the_last_member_of_a_key() {
    let value = object(vec![
        ("a", Json::unsigned(1)),
        ("b", Json::text("x")),
        ("a", Json::unsigned(2)),
    ]);
    assert_eq!(value.get("a"), Some(&Json::unsigned(2)));
    assert_eq!(value.get("b").and_then(|v| v.as_str()), Some("x"));
    assert_eq!(value.get("c"), None);
    assert_eq!(value.index("c"), &Json::Null);
    assert_eq!(Json::array(vec![]).get("a"), None);
    assert_eq!(Json::text("a").index("a"), &Json::Null);
}

#[test]
fn json_accessors_tell_the_kinds_apart() {
    assert_eq!(Json::unsigned(7).as_u64(), Some(7));
    assert_eq!(Json::Number(Number::NegInt(-7)).as_u64(), None);
    assert_eq!(Json::Number(Number::Float(0x4000000000000000)).as_u64(), None);
    assert_eq!(Json::text("7").as_u64(), None);
    assert_eq!(Json::text("7").as_str(), Some("7"));
    assert_eq!(Json::unsigned(7).as_str(), None);
    assert_eq!(Json::Bool(true).as_array(), None);
    assert_eq!(Json::array(vec![Json::Null]).as_array().map(|v| v.len()), Some(1));
}

#[test]
fn json_duplicate_is_equal() {
    let value = object(vec![
        ("list", Json::array(vec![Json::Null, Json::Bool(true), Json::text("s")])),
        ("n", Json::Number(Number::NegInt(-1))),
        ("o", object(vec![("k", Json::unsigned(1))])),
    ]);
    assert_eq!(value.duplicate(), value);
}

#[test]
fn patterns_read_their_configuration() {
    let patterns = DMLTemplates::get_pattern_templates();
    assert_eq!(patterns.len(), 5);
    assert_eq!(patterns.get("cpu"), Some(Pattern::Cpu));
    assert_eq!(patterns.get("gpu"), None);
    assert!(!patterns.contains_key("gpu"));
    assert_eq!(Pattern::BusInterface.name(), "bus_interface");

    let irq = Pattern::InterruptController
        .apply("pic", &object(vec![("num_irqs", Json::unsigned(0x1_0000_0005))]))
        .unwrap();
    assert_eq!(
        irq.methods[0].body.as_deref(),
        Some("if (irq >= 0 && irq < 5) {\n        pending_irqs |= (1 << irq);\n        update_interrupt();\n    }")
    );
    let irq = Pattern::InterruptController.apply("pic", &Json::Null).unwrap();
    assert!(irq.methods[0].body.as_deref().unwrap().starts_with("if (irq >= 0 && irq < 32) {"));

    let cpu = Pattern::Cpu.apply("core", &object(vec![])).unwrap();
    assert_eq!(cpu.base_template.as_deref(), Some("generic_cpu"));
    let cpu =
        Pattern::Cpu.apply("core", &object(vec![("architecture", Json::text("arm"))])).unwrap();
    assert_eq!(cpu.base_template.as_deref(), Some("arm_cpu"));

    let memory = Pattern::Memory.apply("ram", &object(vec![])).unwrap();
    assert_eq!(memory.banks[0].documentation.as_deref(), Some("64MB memory bank"));
    let memory =
        Pattern::Memory.apply("ram", &object(vec![("size_mb", Json::unsigned(512))])).unwrap();
    assert_eq!(memory.banks[0].documentation.as_deref(), Some("512MB memory bank"));

    let bus = Pattern::BusInterface.apply("pci", &Json::Null).unwrap();
    assert_eq!(bus.banks[0].registers[0].fields[0].bits, "7:0");
    let mapped = Pattern::MemoryMapped.apply("io", &Json::Null).unwrap();
    assert_eq!(mapped.banks[0].registers[1].fields[1].name, "error");
}

#[test]
fn basic_devices_inherit_by_kind() {
    for (kind, base) in [
        ("cpu", "cpu_device"),
        ("memory", "memory_device"),
        ("peripheral", "peripheral_device"),
        ("custom", "base_device"),
        ("", "base_device"),
    ] {
        let device = DMLTemplates::basic_device("d", kind);
        assert_eq!(device.base_template.as_deref(), Some(base));
        assert_eq!(device.documentation, Some(format!("Generated {} device", kind)));
        assert!(device.banks.is_empty() && device.interfaces.is_empty());
        assert!(device.methods.is_empty() && device.dependencies.is_empty());
    }
}

#[test]
fn snippets_are_what_they_say() {
    let read = DMLSnippets::standard_read_method();
    assert_eq!(read.name, "read");
    assert!(read.parameters.is_empty());
    assert_eq!(read.return_type.as_deref(), Some("uint32"));
    assert_eq!(read.body.as_deref(), Some("return val;"));
    assert_eq!(read.documentation.as_deref(), Some("Read register value"));

    let write = DMLSnippets::standard_write_method();
    assert_eq!(write.parameters[0].name, "value");
    assert_eq!(write.parameters[0].param_type, "uint32");
    assert_eq!(write.return_type, None);
    assert_eq!(write.body.as_deref(), Some("val = value;"));

    let init = DMLSnippets::init_method();
    assert_eq!(init.body.as_deref(), Some("// Initialize register to default value\nval = 0;"));

    let enable = DMLSnippets::enable_field();
    assert_eq!((enable.name.as_str(), enable.bits.as_str()), ("enable", "0"));
    assert_eq!(enable.access.as_deref(), Some("rw"));
    let status = DMLSnippets::status_field();
    assert_eq!((status.name.as_str(), status.bits.as_str()), ("status", "1:0"));
    assert_eq!(status.access.as_deref(), Some("ro"));
    let interrupt = DMLSnippets::interrupt_field();
    assert_eq!((interrupt.name.as_str(), interrupt.bits.as_str()), ("interrupt", "31"));
    assert_eq!(interrupt.documentation.as_deref(), Some("Interrupt enable"));
}
