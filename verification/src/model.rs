//! The description of a device: a typed tree.
//!
//! A device holds banks, interfaces and methods; a bank holds registers; a
//! register holds fields and methods; a method holds parameters. The types are
//! plain data with public fields and no validation. Order within every list is
//! generation order.
//!
//! Each type has a mathematical model (`DeviceModel` for `DeviceSpec`, and so
//! on) in which strings are sequences of characters and vectors are sequences.
//! The model is the type's view, and the contracts of the crate speak of it.

use vstd::prelude::*;

verus! {

/// A parameter of a method: a name and a type expression.
#[derive(Debug, Clone)]
pub struct ParameterSpec {
    pub name: String,
    pub param_type: String,
}

/// Model of a [`ParameterSpec`].
pub struct ParameterModel {
    pub name: Seq<char>,
    pub param_type: Seq<char>,
}

impl DeepView for ParameterSpec {
    type V = ParameterModel;

    open spec fn deep_view(&self) -> ParameterModel {
        ParameterModel { name: self.name@, param_type: self.param_type@ }
    }
}

impl View for ParameterSpec {
    type V = ParameterModel;

    open spec fn view(&self) -> ParameterModel {
        self.deep_view()
    }
}

/// A method: a name, parameters, and an optional return type, body and
/// documentation. The body is a source fragment that is emitted as it stands.
#[derive(Debug, Clone)]
pub struct MethodSpec {
    pub name: String,
    pub parameters: Vec<ParameterSpec>,
    pub return_type: Option<String>,
    pub body: Option<String>,
    pub documentation: Option<String>,
}

/// Model of a [`MethodSpec`].
pub struct MethodModel {
    pub name: Seq<char>,
    pub parameters: Seq<ParameterModel>,
    pub return_type: Option<Seq<char>>,
    pub body: Option<Seq<char>>,
    pub documentation: Option<Seq<char>>,
}

impl DeepView for MethodSpec {
    type V = MethodModel;

    open spec fn deep_view(&self) -> MethodModel {
        MethodModel {
            name: self.name@,
            parameters: self.parameters.deep_view(),
            return_type: self.return_type.deep_view(),
            body: self.body.deep_view(),
            documentation: self.documentation.deep_view(),
        }
    }
}

impl View for MethodSpec {
    type V = MethodModel;

    open spec fn view(&self) -> MethodModel {
        self.deep_view()
    }
}

/// A field of a register: a name, a bit range (a single index or
/// `high:low`), and an optional access mode and documentation. Neither the
/// range nor the mode is checked.
#[derive(Debug, Clone)]
pub struct FieldSpec {
    pub name: String,
    pub bits: String,
    pub access: Option<String>,
    pub documentation: Option<String>,
}

/// Model of a [`FieldSpec`].
pub struct FieldModel {
    pub name: Seq<char>,
    pub bits: Seq<char>,
    pub access: Option<Seq<char>>,
    pub documentation: Option<Seq<char>>,
}

impl DeepView for FieldSpec {
    type V = FieldModel;

    open spec fn deep_view(&self) -> FieldModel {
        FieldModel {
            name: self.name@,
            bits: self.bits@,
            access: self.access.deep_view(),
            documentation: self.documentation.deep_view(),
        }
    }
}

impl View for FieldSpec {
    type V = FieldModel;

    open spec fn view(&self) -> FieldModel {
        self.deep_view()
    }
}

/// A register: a name, a size in bytes, an optional offset (an address
/// expression, not checked), optional documentation, fields and methods.
#[derive(Debug, Clone)]
pub struct RegisterSpec {
    pub name: String,
    pub size: u64,
    pub offset: Option<String>,
    pub documentation: Option<String>,
    pub fields: Vec<FieldSpec>,
    pub methods: Vec<MethodSpec>,
}

/// Model of a [`RegisterSpec`].
pub struct RegisterModel {
    pub name: Seq<char>,
    pub size: nat,
    pub offset: Option<Seq<char>>,
    pub documentation: Option<Seq<char>>,
    pub fields: Seq<FieldModel>,
    pub methods: Seq<MethodModel>,
}

impl DeepView for RegisterSpec {
    type V = RegisterModel;

    open spec fn deep_view(&self) -> RegisterModel {
        RegisterModel {
            name: self.name@,
            size: self.size as nat,
            offset: self.offset.deep_view(),
            documentation: self.documentation.deep_view(),
            fields: self.fields.deep_view(),
            methods: self.methods.deep_view(),
        }
    }
}

impl View for RegisterSpec {
    type V = RegisterModel;

    open spec fn view(&self) -> RegisterModel {
        self.deep_view()
    }
}

/// A bank: a named partition of the address space that groups registers.
#[derive(Debug, Clone)]
pub struct BankSpec {
    pub name: String,
    pub documentation: Option<String>,
    pub registers: Vec<RegisterSpec>,
}

/// Model of a [`BankSpec`].
pub struct BankModel {
    pub name: Seq<char>,
    pub documentation: Option<Seq<char>>,
    pub registers: Seq<RegisterModel>,
}

impl DeepView for BankSpec {
    type V = BankModel;

    open spec fn deep_view(&self) -> BankModel {
        BankModel {
            name: self.name@,
            documentation: self.documentation.deep_view(),
            registers: self.registers.deep_view(),
        }
    }
}

impl View for BankSpec {
    type V = BankModel;

    open spec fn view(&self) -> BankModel {
        self.deep_view()
    }
}

/// An interface that the device implements; a name only.
#[derive(Debug, Clone)]
pub struct InterfaceSpec {
    pub name: String,
}

/// Model of an [`InterfaceSpec`].
pub struct InterfaceModel {
    pub name: Seq<char>,
}

impl DeepView for InterfaceSpec {
    type V = InterfaceModel;

    open spec fn deep_view(&self) -> InterfaceModel {
        InterfaceModel { name: self.name@ }
    }
}

impl View for InterfaceSpec {
    type V = InterfaceModel;

    open spec fn view(&self) -> InterfaceModel {
        self.deep_view()
    }
}

/// A device: a name, an optional base template (a name only), optional
/// documentation, banks, interfaces, methods and the names of what it
/// depends on.
#[derive(Debug, Clone)]
pub struct DeviceSpec {
    pub name: String,
    pub base_template: Option<String>,
    pub documentation: Option<String>,
    pub banks: Vec<BankSpec>,
    pub interfaces: Vec<InterfaceSpec>,
    pub methods: Vec<MethodSpec>,
    pub dependencies: Vec<String>,
}

/// Model of a [`DeviceSpec`].
pub struct DeviceModel {
    pub name: Seq<char>,
    pub base_template: Option<Seq<char>>,
    pub documentation: Option<Seq<char>>,
    pub banks: Seq<BankModel>,
    pub interfaces: Seq<InterfaceModel>,
    pub methods: Seq<MethodModel>,
    pub dependencies: Seq<Seq<char>>,
}

impl DeepView for DeviceSpec {
    type V = DeviceModel;

    open spec fn deep_view(&self) -> DeviceModel {
        DeviceModel {
            name: self.name@,
            base_template: self.base_template.deep_view(),
            documentation: self.documentation.deep_view(),
            banks: self.banks.deep_view(),
            interfaces: self.interfaces.deep_view(),
            methods: self.methods.deep_view(),
            dependencies: self.dependencies.deep_view(),
        }
    }
}

impl View for DeviceSpec {
    type V = DeviceModel;

    open spec fn view(&self) -> DeviceModel {
        self.deep_view()
    }
}

} // verus!
