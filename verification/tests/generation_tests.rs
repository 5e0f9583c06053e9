//! Tests of the generation engine on exact texts.

use dml_mcp::generation::{
    BankSpec, DMLGenerator, DeviceSpec, FieldSpec, GeneratedCode, GenerationConfig,
    GenerationContext, GenerationError, IndentStyle, InterfaceSpec, LineEnding, MethodSpec,
    ParameterSpec, RegisterSpec, TemplateRegistry,
};

fn generator(config: GenerationConfig, imports: Vec<&str>) -> DMLGenerator {
    DMLGenerator::new(GenerationContext {
        device_name: "uart".to_string(),
        namespace: "test".to_string(),
        imports: imports.into_iter().map(|s| s.to_string()).collect(),
        templates: vec![],
        config,
    })
}

fn method(name: &str, body: Option<&str>) -> MethodSpec {
    MethodSpec {
        name: name.to_string(),
        parameters: vec![],
        return_type: None,
        body: body.map(|s| s.to_string()),
        documentation: None,
    }
}

fn field(name: &str, bits: &str) -> FieldSpec {
    FieldSpec { name: name.to_string(), bits: bits.to_string(), access: None, documentation: None }
}

fn uart() -> DeviceSpec {
    DeviceSpec {
        name: "uart".to_string(),
        base_template: Some("base_device".to_string()),
        documentation: Some("A UART".to_string()),
        banks: vec![BankSpec {
            name: "regs".to_string(),
            documentation: Some("Registers".to_string()),
            registers: vec![RegisterSpec {
                name: "ctrl".to_string(),
                size: 4,
                offset: Some("0x00".to_string()),
                documentation: None,
                fields: vec![
                    FieldSpec {
                        name: "enable".to_string(),
                        bits: "0".to_string(),
                        access: Some("rw".to_string()),
                        documentation: Some("Enable bit".to_string()),
                    },
                    field("mode", "2:1"),
                ],
                methods: vec![MethodSpec {
                    name: "read".to_string(),
                    parameters: vec![],
                    return_type: Some("uint32".to_string()),
                    body: Some("return val;".to_string()),
                    documentation: None,
                }],
            }],
        }],
        interfaces: vec![InterfaceSpec { name: "io_memory".to_string() }],
        methods: vec![MethodSpec {
            name: "init".to_string(),
            parameters: vec![],
            return_type: None,
            body: None,
            documentation: Some("Set up".to_string()),
        }],
        dependencies: vec!["utility".to_string()],
    }
}

fn bare_device() -> DeviceSpec {
    DeviceSpec {
        name: "plain".to_string(),
        base_template: None,
        documentation: None,
        banks: vec![BankSpec {
            name: "b".to_string(),
            documentation: None,
            registers: vec![RegisterSpec {
                name: "r".to_string(),
                size: 2,
                offset: None,
                documentation: None,
                fields: vec![field("f", "3"), field("g", "4")],
                methods: vec![method("m", None)],
            }],
        }],
        interfaces: vec![InterfaceSpec { name: "signal".to_string() }],
        methods: vec![method("n", None)],
        dependencies: vec![],
    }
}

fn count(text: &str, c: char) -> usize {
    text.chars().filter(|x| *x == c).count()
}

#[test]
fn device_is_rendered_line_by_line() {
    let generated = generator(GenerationConfig::default(), vec!["utility.dml"])
        .generate_device(&uart())
        .unwrap();
    let expected = "dml 1.4;\n\
\n\
import \"utility.dml\";\n\
\n\
/// A UART\n\
device uart : base_device {\n\
\x20   /// Registers\n\
\x20   bank regs {\n\
\x20   register ctrl size 4 @ 0x00 {\n\
\x20       /// Enable bit\n\
\x20       field enable @ [0] access rw;\n\
\x20       field mode @ [2:1];\n\
\x20   method read -> uint32 {\n\
\x20       return val;\n\
\x20   }\n\
\x20   }\n\
\x20   }\n\
\x20   implement io_memory;\n\
\x20   /// Set up\n\
\x20   method init {\n\
\x20       // TODO: Implement method\n\
\x20   }\n\
}\n";
    assert_eq!(generated.content, expected);
    assert_eq!(generated.file_path, "uart.dml");
    assert_eq!(generated.dependencies, vec!["utility".to_string()]);
}

#[test]
fn device_without_imports_has_no_second_blank_line() {
    let device = DeviceSpec {
        name: "d".to_string(),
        base_template: None,
        documentation: None,
        banks: vec![],
        interfaces: vec![],
        methods: vec![],
        dependencies: vec![],
    };
    let generated = generator(GenerationConfig::default(), vec![]).generate_device(&device).unwrap();
    assert_eq!(generated.content, "dml 1.4;\n\ndevice d {\n}\n");
    assert_eq!(generated.file_path, "d.dml");
    assert!(generated.dependencies.is_empty());
}

#[test]
fn header_lists_the_imports_in_order() {
    let with = generator(GenerationConfig::default(), vec!["a.dml", "b.dml"]);
    assert_eq!(
        with.generate_header().unwrap(),
        "dml 1.4;\n\nimport \"a.dml\";\nimport \"b.dml\";\n\n"
    );
    let without = generator(GenerationConfig::default(), vec![]);
    assert_eq!(without.generate_header().unwrap(), "dml 1.4;\n\n");
}

#[test]
fn declaration_has_the_base_template_only_where_one_is_set() {
    let g = generator(GenerationConfig::default(), vec![]);
    let mut device = uart();
    assert_eq!(
        g.generate_device_declaration(&device).unwrap(),
        "/// A UART\ndevice uart : base_device {\n"
    );
    device.base_template = None;
    device.documentation = None;
    assert_eq!(g.generate_device_declaration(&device).unwrap(), "device uart {\n");
}

#[test]
fn method_with_parameters_and_return_type() {
    let config = GenerationConfig {
        indent_style: IndentStyle::Spaces(2),
        line_ending: LineEnding::Windows,
        generate_docs: false,
        ..Default::default()
    };
    let m = MethodSpec {
        name: "write".to_string(),
        parameters: vec![
            ParameterSpec { name: "value".to_string(), param_type: "uint32".to_string() },
            ParameterSpec { name: "mask".to_string(), param_type: "uint32".to_string() },
        ],
        return_type: Some("bool".to_string()),
        body: Some("x;".to_string()),
        documentation: Some("not written".to_string()),
    };
    assert_eq!(
        generator(config, vec![]).generate_method(&m).unwrap(),
        "  method write(value: uint32, mask: uint32) -> bool {\r\n    x;\r\n  }\r\n"
    );
}

#[test]
fn method_without_optional_parts() {
    let code = generator(GenerationConfig::default(), vec![]).generate_method(&method("m", None));
    assert_eq!(code.unwrap(), "    method m {\n        // TODO: Implement method\n    }\n");
}

#[test]
fn tabs_indent_everything_but_fields() {
    let config = GenerationConfig { indent_style: IndentStyle::Tabs, ..Default::default() };
    let register = RegisterSpec {
        name: "r".to_string(),
        size: 10,
        offset: None,
        documentation: Some("R".to_string()),
        fields: vec![field("f", "3")],
        methods: vec![method("m", Some("b;"))],
    };
    assert_eq!(
        generator(config, vec![]).generate_register(&register).unwrap(),
        "\t/// R\n\tregister r size 10 {\n        field f @ [3];\n\tmethod m {\n\t\tb;\n\t}\n\t}\n"
    );
}

#[test]
fn register_offset_appears_once_or_not_at_all() {
    let g = generator(GenerationConfig::default(), vec![]);
    let mut register = RegisterSpec {
        name: "status".to_string(),
        size: 4,
        offset: None,
        documentation: None,
        fields: vec![],
        methods: vec![],
    };
    let without = g.generate_register(&register).unwrap();
    assert_eq!(without, "    register status size 4 {\n    }\n");
    assert!(!without.contains('@'));

    register.offset = Some("0x04".to_string());
    let with = g.generate_register(&register).unwrap();
    assert_eq!(with, "    register status size 4 @ 0x04 {\n    }\n");
    assert_eq!(with.matches("@ 0x04").count(), 1);
}

#[test]
fn field_interface_and_bank() {
    let g = generator(GenerationConfig::default(), vec![]);
    let f = FieldSpec {
        name: "ready".to_string(),
        bits: "0".to_string(),
        access: Some("ro".to_string()),
        documentation: Some("Ready bit".to_string()),
    };
    assert_eq!(
        g.generate_field(&f).unwrap(),
        "        /// Ready bit\n        field ready @ [0] access ro;\n"
    );
    assert_eq!(g.generate_field(&field("x", "7:0")).unwrap(), "        field x @ [7:0];\n");
    assert_eq!(
        g.generate_interface(&InterfaceSpec { name: "signal".to_string() }).unwrap(),
        "    implement signal;\n"
    );
    let bank = BankSpec { name: "empty".to_string(), documentation: None, registers: vec![] };
    assert_eq!(g.generate_bank(&bank).unwrap(), "    bank empty {\n    }\n");
}

#[test]
fn every_line_begins_with_its_indentation() {
    let config = GenerationConfig { indent_style: IndentStyle::Spaces(3), ..Default::default() };
    let generated = generator(config, vec![]).generate_device(&bare_device()).unwrap();
    let expected = "dml 1.4;\n\
\n\
device plain {\n\
\x20  bank b {\n\
\x20  register r size 2 {\n\
\x20       field f @ [3];\n\
\x20       field g @ [4];\n\
\x20  method m {\n\
\x20     // TODO: Implement method\n\
\x20  }\n\
\x20  }\n\
\x20  }\n\
\x20  implement signal;\n\
\x20  method n {\n\
\x20     // TODO: Implement method\n\
\x20  }\n\
}\n";
    assert_eq!(generated.content, expected);
    let depths = [0, 1, 1, 8, 8, 1, 2, 1, 1, 1, 1, 1, 2, 1, 0];
    let body: Vec<&str> = generated.content.lines().skip(2).collect();
    assert_eq!(body.len(), depths.len());
    for (line, depth) in body.iter().zip(depths.iter()) {
        let want = if *depth == 8 { 8 } else { 3 * depth };
        let have = line.chars().take_while(|c| *c == ' ').count();
        assert_eq!(have, want, "{}", line);
    }
}

#[test]
fn bare_device_has_balanced_braces_and_no_loose_separators() {
    let generated =
        generator(GenerationConfig::default(), vec![]).generate_device(&bare_device()).unwrap();
    let text = generated.content;
    // One pair of braces for the device, the bank, the register and each of the two methods.
    assert_eq!(count(&text, '{'), 5);
    assert_eq!(count(&text, '}'), 5);
    let mut depth = 0i32;
    for c in text.chars() {
        if c == '{' {
            depth += 1;
        }
        if c == '}' {
            depth -= 1;
        }
        assert!(depth >= 0);
    }
    assert_eq!(depth, 0);
    assert_eq!(count(&text, ','), 0);
    // One `@` for each field, one `:` for each placeholder comment.
    assert_eq!(count(&text, '@'), 2);
    assert_eq!(count(&text, ':'), 2);
    assert!(!text.contains("()"));
    assert!(!text.contains("->"));
    assert!(!text.contains("///"));
}

#[test]
fn generation_is_repeatable() {
    let g = generator(GenerationConfig::default(), vec!["utility.dml"]);
    let first = g.generate_device(&uart()).unwrap();
    let second = g.generate_device(&uart()).unwrap();
    assert_eq!(first.content, second.content);
    assert_eq!(first.file_path, second.file_path);
    assert_eq!(first.dependencies, second.dependencies);
    assert_eq!(g.render_device(&uart()).content, first.content);
}

#[test]
fn a_rejection_ends_the_run_only_where_validation_is_on() {
    let code = || GeneratedCode {
        content: "x".to_string(),
        file_path: "x.dml".to_string(),
        dependencies: vec![],
    };
    let on = generator(GenerationConfig::default(), vec![]);
    match on.conclude(code(), Err(GenerationError::Rejected("bad".to_string()))) {
        Err(error) => assert_eq!(error.message(), "Generated code rejected: bad"),
        Ok(_) => panic!("a rejected text was returned"),
    }
    assert_eq!(on.conclude(code(), Ok(())).unwrap().content, "x");
    assert!(on.validate_generated_code(&code()).is_ok());

    let off = generator(
        GenerationConfig { validate_output: false, ..Default::default() },
        vec![],
    );
    let kept = off.conclude(code(), Err(GenerationError::Rejected("bad".to_string())));
    assert_eq!(kept.unwrap().file_path, "x.dml");
    assert_eq!(off.generate_device(&bare_device()).unwrap().file_path, "plain.dml");
}

#[test]
fn a_new_template_registry_is_empty() {
    let mut registry = TemplateRegistry::new();
    assert_eq!(registry.len(), 0);
    registry.load_builtin_templates();
    assert_eq!(registry.len(), 0);
}
