//! Canned device shapes and common snippets.
//!
//! Every constructor returns a description of a device or of a part. Its contract
//! equates the model of that value with a spec function that writes the shape
//! down as data.

use vstd::prelude::*;
use crate::model::{
    BankModel, BankSpec, DeviceModel, DeviceSpec, FieldModel, FieldSpec, InterfaceModel,
    InterfaceSpec, MethodModel, MethodSpec, ParameterModel, ParameterSpec, RegisterModel,
    RegisterSpec,
};
use crate::generation::GenerationError;
use crate::json::{number_or, text_or, Json, JsonModel};
use crate::lists::{list0, list1, list2, list3, list5};
use crate::text::{decimal, decimal_text, same_text};

verus! {

/// A documented field with an access mode.
pub open spec fn field_of(
    name: Seq<char>,
    bits: Seq<char>,
    access: Seq<char>,
    documentation: Seq<char>,
) -> FieldModel {
    FieldModel { name, bits, access: Some(access), documentation: Some(documentation) }
}

/// A documented register at an offset.
pub open spec fn register_of(
    name: Seq<char>,
    size: nat,
    offset: Seq<char>,
    documentation: Seq<char>,
    fields: Seq<FieldModel>,
    methods: Seq<MethodModel>,
) -> RegisterModel {
    RegisterModel {
        name,
        size,
        offset: Some(offset),
        documentation: Some(documentation),
        fields,
        methods,
    }
}

/// A documented method with a body.
pub open spec fn method_of(
    name: Seq<char>,
    parameters: Seq<ParameterModel>,
    return_type: Option<Seq<char>>,
    body: Seq<char>,
    documentation: Seq<char>,
) -> MethodModel {
    MethodModel {
        name,
        parameters,
        return_type,
        body: Some(body),
        documentation: Some(documentation),
    }
}

/// A documented bank.
pub open spec fn bank_of(
    name: Seq<char>,
    documentation: Seq<char>,
    registers: Seq<RegisterModel>,
) -> BankModel {
    BankModel { name, documentation: Some(documentation), registers }
}

fn field(name: &str, bits: &str, access: &str, documentation: &str) -> (r: FieldSpec)
    ensures
        r@ == field_of(name@, bits@, access@, documentation@),
{
    FieldSpec {
        name: name.to_string(),
        bits: bits.to_string(),
        access: Some(access.to_string()),
        documentation: Some(documentation.to_string()),
    }
}

fn register(
    name: &str,
    size: u64,
    offset: &str,
    documentation: &str,
    fields: Vec<FieldSpec>,
    methods: Vec<MethodSpec>,
) -> (r: RegisterSpec)
    ensures
        r@ == register_of(
            name@,
            size as nat,
            offset@,
            documentation@,
            fields.deep_view(),
            methods.deep_view(),
        ),
{
    RegisterSpec {
        name: name.to_string(),
        size,
        offset: Some(offset.to_string()),
        documentation: Some(documentation.to_string()),
        fields,
        methods,
    }
}

fn parameter(name: &str, param_type: &str) -> (r: ParameterSpec)
    ensures
        r@ == (ParameterModel { name: name@, param_type: param_type@ }),
{
    ParameterSpec { name: name.to_string(), param_type: param_type.to_string() }
}

fn method(
    name: &str,
    parameters: Vec<ParameterSpec>,
    return_type: Option<String>,
    body: String,
    documentation: &str,
) -> (r: MethodSpec)
    ensures
        r@ == method_of(
            name@,
            parameters.deep_view(),
            return_type.deep_view(),
            body@,
            documentation@,
        ),
{
    MethodSpec {
        name: name.to_string(),
        parameters,
        return_type,
        body: Some(body),
        documentation: Some(documentation.to_string()),
    }
}

fn bank(name: &str, documentation: String, registers: Vec<RegisterSpec>) -> (r: BankSpec)
    ensures
        r@ == bank_of(name@, documentation@, registers.deep_view()),
{
    BankSpec { name: name.to_string(), documentation: Some(documentation), registers }
}

fn interface(name: &str) -> (r: InterfaceSpec)
    ensures
        r@ == (InterfaceModel { name: name@ }),
{
    InterfaceSpec { name: name.to_string() }
}

/// The base template that a device of the given kind inherits from.
pub open spec fn base_template_for(device_type: Seq<char>) -> Seq<char> {
    if device_type == "cpu"@ {
        "cpu_device"@
    } else if device_type == "memory"@ {
        "memory_device"@
    } else if device_type == "peripheral"@ {
        "peripheral_device"@
    } else {
        "base_device"@
    }
}

/// The bare device of a kind: a base template and a line of documentation,
/// nothing else.
pub open spec fn basic_device_model(name: Seq<char>, device_type: Seq<char>) -> DeviceModel {
    DeviceModel {
        name,
        base_template: Some(base_template_for(device_type)),
        documentation: Some("Generated "@ + device_type + " device"@),
        banks: Seq::empty(),
        interfaces: Seq::empty(),
        methods: Seq::empty(),
        dependencies: Seq::empty(),
    }
}

/// A peripheral with a control and a status register behind `io_memory`.
pub open spec fn memory_mapped_model(name: Seq<char>) -> DeviceModel {
    DeviceModel {
        banks: seq![
            bank_of(
                "registers"@,
                "Memory-mapped registers"@,
                seq![
                    register_of(
                        "control"@,
                        4,
                        "0x00"@,
                        "Control register"@,
                        seq![
                            field_of("enable"@, "0"@, "rw"@, "Enable bit"@),
                            field_of("reset"@, "1"@, "rw"@, "Reset bit"@),
                        ],
                        Seq::empty(),
                    ),
                    register_of(
                        "status"@,
                        4,
                        "0x04"@,
                        "Status register"@,
                        seq![
                            field_of("ready"@, "0"@, "ro"@, "Ready status"@),
                            field_of("error"@, "1"@, "ro"@, "Error status"@),
                        ],
                        Seq::empty(),
                    ),
                ],
            ),
        ],
        interfaces: seq![InterfaceModel { name: "io_memory"@ }],
        ..basic_device_model(name, "peripheral"@)
    }
}

/// The body of `signal_raise`: it records the interrupt if its number is
/// below `num_irqs`.
pub open spec fn signal_raise_body(num_irqs: nat) -> Seq<char> {
    "if (irq >= 0 && irq < "@ + decimal(num_irqs)
        + ") {\n        pending_irqs |= (1 << irq);\n        update_interrupt();\n    }"@
}

/// An interrupt controller: an enable and a pending register behind
/// `signal`, and a method that raises one of `num_irqs` interrupts.
pub open spec fn interrupt_controller_model(name: Seq<char>, num_irqs: nat) -> DeviceModel {
    DeviceModel {
        banks: seq![
            bank_of(
                "registers"@,
                "Interrupt controller registers"@,
                seq![
                    register_of(
                        "irq_enable"@,
                        4,
                        "0x00"@,
                        "Interrupt enable register"@,
                        Seq::empty(),
                        seq![
                            method_of(
                                "write"@,
                                seq![ParameterModel { name: "value"@, param_type: "uint32"@ }],
                                None,
                                "enabled_irqs = value;"@,
                                "Enable/disable interrupts"@,
                            ),
                        ],
                    ),
                    register_of(
                        "irq_pending"@,
                        4,
                        "0x04"@,
                        "Pending interrupts register"@,
                        Seq::empty(),
                        seq![
                            method_of(
                                "read"@,
                                Seq::empty(),
                                Some("uint32"@),
                                "return pending_irqs;"@,
                                "Read pending interrupts"@,
                            ),
                        ],
                    ),
                ],
            ),
        ],
        interfaces: seq![InterfaceModel { name: "signal"@ }],
        methods: seq![
            method_of(
                "signal_raise"@,
                seq![ParameterModel { name: "irq"@, param_type: "int"@ }],
                None,
                signal_raise_body(num_irqs),
                "Raise an interrupt"@,
            ),
        ],
        ..basic_device_model(name, "peripheral"@)
    }
}

/// A processor of the architecture `arch`: a program counter that can be
/// read and written, three interfaces, and `init` and `reset`. Its base
/// template is named after the architecture.
pub open spec fn cpu_device_model(name: Seq<char>, arch: Seq<char>) -> DeviceModel {
    DeviceModel {
        base_template: Some(arch + "_cpu"@),
        banks: seq![
            bank_of(
                "registers"@,
                "CPU control registers"@,
                seq![
                    register_of(
                        "pc"@,
                        8,
                        "0x00"@,
                        "Program counter"@,
                        Seq::empty(),
                        seq![
                            method_of(
                                "read"@,
                                Seq::empty(),
                                Some("uint64"@),
                                "return cpu.pc;"@,
                                "Read program counter"@,
                            ),
                            method_of(
                                "write"@,
                                seq![ParameterModel { name: "value"@, param_type: "uint64"@ }],
                                None,
                                "cpu.pc = value;"@,
                                "Write program counter"@,
                            ),
                        ],
                    ),
                ],
            ),
        ],
        interfaces: seq![
            InterfaceModel { name: "processor"@ },
            InterfaceModel { name: "cycle"@ },
            InterfaceModel { name: "execute"@ },
        ],
        methods: seq![
            method_of(
                "init"@,
                Seq::empty(),
                None,
                "// Initialize CPU state"@,
                "Initialize the CPU"@,
            ),
            method_of(
                "reset"@,
                Seq::empty(),
                None,
                "// Reset CPU to initial state"@,
                "Reset the CPU"@,
            ),
        ],
        ..basic_device_model(name, "cpu"@)
    }
}

/// A memory of `size_mb` megabytes: one bank without registers behind
/// `io_memory`, with `read` and `write`.
pub open spec fn memory_device_model(name: Seq<char>, size_mb: nat) -> DeviceModel {
    DeviceModel {
        banks: seq![bank_of("memory"@, decimal(size_mb) + "MB memory bank"@, Seq::empty())],
        interfaces: seq![InterfaceModel { name: "io_memory"@ }],
        methods: seq![
            method_of(
                "read"@,
                seq![
                    ParameterModel { name: "offset"@, param_type: "uint64"@ },
                    ParameterModel { name: "size"@, param_type: "int"@ },
                ],
                Some("uint64"@),
                "return memory_read(offset, size);"@,
                "Read from memory"@,
            ),
            method_of(
                "write"@,
                seq![
                    ParameterModel { name: "offset"@, param_type: "uint64"@ },
                    ParameterModel { name: "value"@, param_type: "uint64"@ },
                    ParameterModel { name: "size"@, param_type: "int"@ },
                ],
                None,
                "memory_write(offset, value, size);"@,
                "Write to memory"@,
            ),
        ],
        ..basic_device_model(name, "memory"@)
    }
}

/// A bus interface: one configuration register with a width and an
/// endianness field, behind `io_memory` and `signal`.
pub open spec fn bus_interface_model(name: Seq<char>) -> DeviceModel {
    DeviceModel {
        banks: seq![
            bank_of(
                "config"@,
                "Bus interface configuration"@,
                seq![
                    register_of(
                        "bus_config"@,
                        4,
                        "0x00"@,
                        "Bus configuration register"@,
                        seq![
                            field_of("width"@, "7:0"@, "rw"@, "Bus width"@),
                            field_of("endian"@, "8"@, "rw"@, "Endianness (0=little, 1=big)"@),
                        ],
                        Seq::empty(),
                    ),
                ],
            ),
        ],
        interfaces: seq![
            InterfaceModel { name: "io_memory"@ },
            InterfaceModel { name: "signal"@ },
        ],
        ..basic_device_model(name, "peripheral"@)
    }
}

/// Built-in device shapes.
pub struct DMLTemplates;

impl DMLTemplates {
    /// The bare device of a kind. The kinds `cpu`, `memory` and `peripheral`
    /// have a base template of their own; every other kind inherits from
    /// `base_device`.
    pub fn basic_device(name: &str, device_type: &str) -> (device: DeviceSpec)
        ensures
            device@ == basic_device_model(name@, device_type@),
    {
        let base_template = if same_text(device_type, "cpu") {
            "cpu_device".to_string()
        } else if same_text(device_type, "memory") {
            "memory_device".to_string()
        } else if same_text(device_type, "peripheral") {
            "peripheral_device".to_string()
        } else {
            "base_device".to_string()
        };
        let mut documentation = "Generated ".to_string();
        documentation.append(device_type);
        documentation.append(" device");
        let device = DeviceSpec {
            name: name.to_string(),
            base_template: Some(base_template),
            documentation: Some(documentation),
            banks: Vec::new(),
            interfaces: Vec::new(),
            methods: Vec::new(),
            dependencies: Vec::new(),
        };
        proof {
            let model = basic_device_model(name@, device_type@);
            assert(device@.banks =~= model.banks);
            assert(device@.interfaces =~= model.interfaces);
            assert(device@.methods =~= model.methods);
            assert(device@.dependencies =~= model.dependencies);
        }
        device
    }

    /// A memory-mapped peripheral. The address and the size are accepted and
    /// do not change the shape.
    pub fn memory_mapped_device(name: &str, _base_address: u64, _size: u64) -> (device: DeviceSpec)
        ensures
            device@ == memory_mapped_model(name@),
    {
        let mut device = Self::basic_device(name, "peripheral");
        let control_fields = list2(
            field("enable", "0", "rw", "Enable bit"),
            field("reset", "1", "rw", "Reset bit"),
        );
        let status_fields = list2(
            field("ready", "0", "ro", "Ready status"),
            field("error", "1", "ro", "Error status"),
        );
        let registers = list2(
            register("control", 4, "0x00", "Control register", control_fields, list0()),
            register("status", 4, "0x04", "Status register", status_fields, list0()),
        );
        device.banks.push(bank("registers", "Memory-mapped registers".to_string(), registers));
        device.interfaces.push(interface("io_memory"));
        proof {
            let model = memory_mapped_model(name@);
            assert(device@.banks =~= model.banks);
            assert(device@.interfaces =~= model.interfaces);
        }
        device
    }
    /// An interrupt controller for `num_irqs` interrupts.
    pub fn interrupt_controller(name: &str, num_irqs: u32) -> (device: DeviceSpec)
        ensures
            device@ == interrupt_controller_model(name@, num_irqs as nat),
    {
        let mut device = Self::basic_device(name, "peripheral");
        let enable_methods = list1(
            method(
                "write",
                list1(parameter("value", "uint32")),
                None,
                "enabled_irqs = value;".to_string(),
                "Enable/disable interrupts",
            ),
        );
        let pending_methods = list1(
            method(
                "read",
                list0(),
                Some("uint32".to_string()),
                "return pending_irqs;".to_string(),
                "Read pending interrupts",
            ),
        );
        let registers = list2(
            register(
                "irq_enable",
                4,
                "0x00",
                "Interrupt enable register",
                list0(),
                enable_methods,
            ),
            register(
                "irq_pending",
                4,
                "0x04",
                "Pending interrupts register",
                list0(),
                pending_methods,
            ),
        );
        device.banks.push(
            bank("registers", "Interrupt controller registers".to_string(), registers),
        );
        device.interfaces.push(interface("signal"));
        let mut body = "if (irq >= 0 && irq < ".to_string();
        body.append(decimal_text(num_irqs as u64).as_str());
        body.append(") {\n        pending_irqs |= (1 << irq);\n        update_interrupt();\n    }");
        device.methods.push(
            method(
                "signal_raise",
                list1(parameter("irq", "int")),
                None,
                body,
                "Raise an interrupt",
            ),
        );
        proof {
            let model = interrupt_controller_model(name@, num_irqs as nat);
            assert(device@.banks =~= model.banks);
            assert(device@.interfaces =~= model.interfaces);
            assert(device@.methods =~= model.methods);
        }
        device
    }

    /// A processor of the architecture `arch`.
    pub fn cpu_device(name: &str, arch: &str) -> (device: DeviceSpec)
        ensures
            device@ == cpu_device_model(name@, arch@),
    {
        let mut device = Self::basic_device(name, "cpu");
        let mut base = arch.to_string();
        base.append("_cpu");
        device.base_template = Some(base);
        let pc_methods = list2(
            method(
                "read",
                list0(),
                Some("uint64".to_string()),
                "return cpu.pc;".to_string(),
                "Read program counter",
            ),
            method(
                "write",
                list1(parameter("value", "uint64")),
                None,
                "cpu.pc = value;".to_string(),
                "Write program counter",
            ),
        );
        let registers = list1(
            register("pc", 8, "0x00", "Program counter", list0(), pc_methods),
        );
        device.banks.push(bank("registers", "CPU control registers".to_string(), registers));
        device.interfaces = list3(
            interface("processor"),
            interface("cycle"),
            interface("execute"),
        );
        device.methods = list2(
            method(
                "init",
                list0(),
                None,
                "// Initialize CPU state".to_string(),
                "Initialize the CPU",
            ),
            method(
                "reset",
                list0(),
                None,
                "// Reset CPU to initial state".to_string(),
                "Reset the CPU",
            ),
        );
        proof {
            let model = cpu_device_model(name@, arch@);
            assert(device@.banks =~= model.banks);
            assert(device@.interfaces =~= model.interfaces);
            assert(device@.methods =~= model.methods);
        }
        device
    }

    /// A memory of `size_mb` megabytes.
    pub fn memory_device(name: &str, size_mb: u32) -> (device: DeviceSpec)
        ensures
            device@ == memory_device_model(name@, size_mb as nat),
    {
        let mut device = Self::basic_device(name, "memory");
        let mut documentation = decimal_text(size_mb as u64);
        documentation.append("MB memory bank");
        device.banks.push(bank("memory", documentation, list0()));
        device.interfaces.push(interface("io_memory"));
        device.methods = list2(
            method(
                "read",
                list2(parameter("offset", "uint64"), parameter("size", "int")),
                Some("uint64".to_string()),
                "return memory_read(offset, size);".to_string(),
                "Read from memory",
            ),
            method(
                "write",
                list3(
                    parameter("offset", "uint64"),
                    parameter("value", "uint64"),
                    parameter("size", "int"),
                ),
                None,
                "memory_write(offset, value, size);".to_string(),
                "Write to memory",
            ),
        );
        proof {
            let model = memory_device_model(name@, size_mb as nat);
            assert(device@.banks =~= model.banks);
            assert(device@.interfaces =~= model.interfaces);
            assert(device@.methods =~= model.methods);
        }
        device
    }

    /// A bus interface. The bus width is accepted and does not change the
    /// shape.
    pub fn bus_interface_device(name: &str, _bus_width: u32) -> (device: DeviceSpec)
        ensures
            device@ == bus_interface_model(name@),
    {
        let mut device = Self::basic_device(name, "peripheral");
        let fields = list2(
            field("width", "7:0", "rw", "Bus width"),
            field("endian", "8", "rw", "Endianness (0=little, 1=big)"),
        );
        let registers = list1(
            register("bus_config", 4, "0x00", "Bus configuration register", fields, list0()),
        );
        device.banks.push(bank("config", "Bus interface configuration".to_string(), registers));
        device.interfaces = list2(interface("io_memory"), interface("signal"));
        proof {
            let model = bus_interface_model(name@);
            assert(device@.banks =~= model.banks);
            assert(device@.interfaces =~= model.interfaces);
        }
        device
    }

    /// The pattern library with all patterns.
    pub fn get_pattern_templates() -> (library: PatternTemplates)
        ensures
            library.patterns() == all_patterns(),
    {
        let patterns = list5(
            Pattern::MemoryMapped,
            Pattern::InterruptController,
            Pattern::Cpu,
            Pattern::Memory,
            Pattern::BusInterface,
        );
        assert(patterns@ =~= patterns.deep_view());
        PatternTemplates { patterns }
    }
}

/// A named constructor of a device shape.
#[derive(Debug, Clone, Copy, PartialEq, Eq)]
pub enum Pattern {
    MemoryMapped,
    InterruptController,
    Cpu,
    Memory,
    BusInterface,
}

/// The name under which a pattern is found.
pub open spec fn pattern_name(pattern: Pattern) -> Seq<char> {
    match pattern {
        Pattern::MemoryMapped => "memory_mapped"@,
        Pattern::InterruptController => "interrupt_controller"@,
        Pattern::Cpu => "cpu"@,
        Pattern::Memory => "memory"@,
        Pattern::BusInterface => "bus_interface"@,
    }
}

/// The low 32 bits of a number.
pub open spec fn low_32(n: u64) -> nat {
    (n % 0x1_0000_0000) as nat
}

/// The device that a pattern makes of a name and a configuration. An
/// interrupt controller reads `num_irqs` (32 where it is absent), a
/// processor `architecture` (`generic`), a memory `size_mb` (64); the
/// numbers are cut to 32 bits. The other patterns read nothing that changes
/// the shape.
pub open spec fn pattern_device(pattern: Pattern, name: Seq<char>, config: JsonModel)
    -> DeviceModel {
    match pattern {
        Pattern::MemoryMapped => memory_mapped_model(name),
        Pattern::InterruptController => interrupt_controller_model(
            name,
            low_32(number_or(config.index("num_irqs"@), 32)),
        ),
        Pattern::Cpu => cpu_device_model(
            name,
            text_or(config.index("architecture"@), "generic"@),
        ),
        Pattern::Memory => memory_device_model(
            name,
            low_32(number_or(config.index("size_mb"@), 64)),
        ),
        Pattern::BusInterface => bus_interface_model(name),
    }
}

fn read_number(config: &Json, key: &str, fallback: u64) -> (n: u64)
    ensures
        n == number_or(config@.index(key@), fallback),
{
    match config.index(key).as_u64() {
        Some(n) => n,
        None => fallback,
    }
}

fn cut_to_32(n: u64) -> (low: u32)
    ensures
        low as nat == low_32(n),
{
    (n % 0x1_0000_0000) as u32
}

impl Pattern {
    /// The name under which the pattern is found.
    pub fn name(&self) -> (name: &'static str)
        ensures
            name@ == pattern_name(*self),
    {
        match self {
            Pattern::MemoryMapped => "memory_mapped",
            Pattern::InterruptController => "interrupt_controller",
            Pattern::Cpu => "cpu",
            Pattern::Memory => "memory",
            Pattern::BusInterface => "bus_interface",
        }
    }

    /// Makes the device of the pattern. Every configuration is accepted.
    pub fn apply(&self, name: &str, config: &Json) -> (result: Result<
        DeviceSpec,
        GenerationError,
    >)
        ensures
            result is Ok,
            result->Ok_0@ == pattern_device(*self, name@, config@),
    {
        match self {
            Pattern::MemoryMapped => {
                let base_address = read_number(config, "base_address", 0);
                let size = read_number(config, "size", 0x1000);
                Ok(DMLTemplates::memory_mapped_device(name, base_address, size))
            },
            Pattern::InterruptController => {
                let num_irqs = cut_to_32(read_number(config, "num_irqs", 32));
                Ok(DMLTemplates::interrupt_controller(name, num_irqs))
            },
            Pattern::Cpu => {
                let arch = match config.index("architecture").as_str() {
                    Some(arch) => arch,
                    None => "generic",
                };
                Ok(DMLTemplates::cpu_device(name, arch))
            },
            Pattern::Memory => {
                let size_mb = cut_to_32(read_number(config, "size_mb", 64));
                Ok(DMLTemplates::memory_device(name, size_mb))
            },
            Pattern::BusInterface => {
                let bus_width = cut_to_32(read_number(config, "bus_width", 32));
                Ok(DMLTemplates::bus_interface_device(name, bus_width))
            },
        }
    }
}

impl DeepView for Pattern {
    type V = Pattern;

    open spec fn deep_view(&self) -> Pattern {
        *self
    }
}

/// The first pattern in `patterns` that has the name `name`.
pub open spec fn pattern_named(patterns: Seq<Pattern>, name: Seq<char>) -> Option<Pattern>
    decreases patterns.len(),
{
    if patterns.len() == 0 {
        None
    } else if pattern_name(patterns[0]) == name {
        Some(patterns[0])
    } else {
        pattern_named(patterns.drop_first(), name)
    }
}

/// All patterns, in the order in which the library holds them.
pub open spec fn all_patterns() -> Seq<Pattern> {
    seq![
        Pattern::MemoryMapped,
        Pattern::InterruptController,
        Pattern::Cpu,
        Pattern::Memory,
        Pattern::BusInterface,
    ]
}

/// The pattern library: patterns that are found by name.
pub struct PatternTemplates {
    patterns: Vec<Pattern>,
}

impl PatternTemplates {
    /// The patterns of the library, in order.
    pub closed spec fn patterns(&self) -> Seq<Pattern> {
        self.patterns@
    }

    /// The pattern of the given name, where the library has one.
    pub fn get(&self, name: &str) -> (pattern: Option<Pattern>)
        ensures
            pattern == pattern_named(self.patterns(), name@),
    {
        let ghost all = self.patterns@;
        let mut i: usize = 0;
        assert(all.skip(0) =~= all);
        while i < self.patterns.len()
            invariant
                i <= self.patterns@.len(),
                all == self.patterns@,
                pattern_named(all, name@) == pattern_named(all.skip(i as int), name@),
            decreases self.patterns@.len() - i,
        {
            proof {
                let rest = all.skip(i as int);
                assert(rest[0] == all[i as int]);
                assert(rest.drop_first() =~= all.skip(i + 1));
            }
            if same_text(self.patterns[i].name(), name) {
                return Some(self.patterns[i]);
            }
            i = i + 1;
        }
        None
    }

    /// Whether the library has a pattern of the given name.
    pub fn contains_key(&self, name: &str) -> (found: bool)
        ensures
            found == pattern_named(self.patterns(), name@).is_some(),
    {
        self.get(name).is_some()
    }

    /// How many patterns the library has.
    pub fn len(&self) -> (n: usize)
        ensures
            n == self.patterns().len(),
    {
        self.patterns.len()
    }
}

/// Common snippets: standard methods and fields of a register.
pub struct DMLSnippets;

impl DMLSnippets {
    /// `read`, which returns the register's value.
    pub fn standard_read_method() -> (m: MethodSpec)
        ensures
            m@ == method_of(
                "read"@,
                Seq::empty(),
                Some("uint32"@),
                "return val;"@,
                "Read register value"@,
            ),
    {
        method(
            "read",
            list0(),
            Some("uint32".to_string()),
            "return val;".to_string(),
            "Read register value",
        )
    }

    /// `write`, which stores its argument in the register.
    pub fn standard_write_method() -> (m: MethodSpec)
        ensures
            m@ == method_of(
                "write"@,
                seq![ParameterModel { name: "value"@, param_type: "uint32"@ }],
                None,
                "val = value;"@,
                "Write register value"@,
            ),
    {
        method(
            "write",
            list1(parameter("value", "uint32")),
            None,
            "val = value;".to_string(),
            "Write register value",
        )
    }

    /// `init`, which clears the register.
    pub fn init_method() -> (m: MethodSpec)
        ensures
            m@ == method_of(
                "init"@,
                Seq::empty(),
                None,
                "// Initialize register to default value\nval = 0;"@,
                "Initialize register"@,
            ),
    {
        method(
            "init",
            list0(),
            None,
            "// Initialize register to default value\nval = 0;".to_string(),
            "Initialize register",
        )
    }

    /// The enable bit: bit 0, read and write.
    pub fn enable_field() -> (f: FieldSpec)
        ensures
            f@ == field_of("enable"@, "0"@, "rw"@, "Enable bit"@),
    {
        field("enable", "0", "rw", "Enable bit")
    }

    /// The status field: bits 1 to 0, read only.
    pub fn status_field() -> (f: FieldSpec)
        ensures
            f@ == field_of("status"@, "1:0"@, "ro"@, "Status field"@),
    {
        field("status", "1:0", "ro", "Status field")
    }

    /// The interrupt enable bit: bit 31, read and write.
    pub fn interrupt_field() -> (f: FieldSpec)
        ensures
            f@ == field_of("interrupt"@, "31"@, "rw"@, "Interrupt enable"@),
    {
        field("interrupt", "31", "rw", "Interrupt enable")
    }
}

} // verus!
