//! The builder protocol that synthesis gives: the entry operation on the
//! target type, the alias of the builder in its starting state, and the
//! module that holds the builder type with the operations of each slot and
//! the exit operation.

use crate::expr::{exprs_view, Expr, ExprView};
use crate::generics::{Generics, GenericsView, WhereClause};
use crate::item::{
    attributes_view, Attribute, AttributeView, Receiver, ReceiverView, ReturnType, ReturnTypeView,
    Visibility, VisibilityView,
};
use crate::lower::{opt_receiver_view, opt_type_view, FieldType};
use crate::syntax::{
    arguments_view, opt_str_view, AngleBracketedGenericArguments, AngleBracketedView,
    GenericArgument, GenericArgumentView, Type, TypeView,
};
use vstd::prelude::*;

verus! {

/// What an operation does to the state of its slot.
#[derive(Clone, Copy, Debug, PartialEq, Eq, Structural)]
pub enum Action {
    /// Holds the value given.
    Assign,
    /// Holds the value given as a present optional value.
    AssignPresent,
    /// Holds the optional value given.
    AssignOptional,
    /// Adds all items of the collection given to the collection held.
    Extend,
    /// Adds the item given at the end of the sequence held.
    Push,
    /// Adds the item given to the set held.
    Insert,
    /// Puts the value given under the key given in the map held.
    InsertEntry,
}

/// A type parameter `param: Into<target>` of an operation that takes any
/// value convertible to `target`.
#[derive(Debug, PartialEq, Eq)]
pub struct IntoBound {
    pub param: String,
    pub target: Option<Type>,
}

pub struct IntoBoundView {
    pub param: Seq<char>,
    pub target: Option<TypeView>,
}

/// A parameter of an operation. Where `into` holds, the argument is
/// converted before it is held.
#[derive(Debug, PartialEq, Eq)]
pub struct OperationParam {
    pub name: String,
    pub ty: Option<Type>,
    pub into: bool,
}

pub struct OperationParamView {
    pub name: Seq<char>,
    pub ty: Option<TypeView>,
    pub into: bool,
}

/// One operation on a slot. It is defined on the builder whose slot is in
/// the state `before` of its slot's operations; it gives the builder with
/// the slot in the state `after` where `transitions` holds, and in the
/// state `before` where not.
#[derive(Debug, PartialEq, Eq)]
pub struct Operation {
    pub name: String,
    pub action: Action,
    pub into_bounds: Vec<IntoBound>,
    pub params: Vec<OperationParam>,
    pub transitions: bool,
    pub where_clause: bool,
}

pub struct OperationView {
    pub name: Seq<char>,
    pub action: Action,
    pub into_bounds: Seq<IntoBoundView>,
    pub params: Seq<OperationParamView>,
    pub transitions: bool,
    pub where_clause: bool,
}

/// The operations of one slot. `before` and `after` are the arguments of
/// the builder type on which the operations are defined and which they
/// give: the states of all slots as a tuple, then the generic arguments of
/// the target and of the factory. `new_state` is the tuple of states after
/// a transition. `doc` is the documentation of the parameter, which each
/// operation bears.
#[derive(Debug, PartialEq, Eq)]
pub struct FieldMethods {
    pub doc: Vec<Attribute>,
    pub index: usize,
    pub field_name: String,
    pub kind: FieldType,
    pub ty: Type,
    pub generics: Generics,
    pub before: AngleBracketedGenericArguments,
    pub after: AngleBracketedGenericArguments,
    pub where_clause: Option<WhereClause>,
    pub new_state: Expr,
    pub operations: Vec<Operation>,
}

pub struct FieldMethodsView {
    pub doc: Seq<AttributeView>,
    pub index: usize,
    pub field_name: Seq<char>,
    pub kind: FieldType,
    pub ty: TypeView,
    pub generics: GenericsView,
    pub before: AngleBracketedView,
    pub after: AngleBracketedView,
    pub where_clause: Option<Seq<Seq<char>>>,
    pub new_state: ExprView,
    pub operations: Seq<OperationView>,
}

/// How the builder holds the receiver of the factory: by value, or as a
/// borrow under the builder's own lifetime.
#[derive(Debug, PartialEq, Eq)]
pub struct CapturedReceiver {
    pub reference: bool,
    pub lifetime: Option<String>,
    pub mutability: bool,
}

pub struct CapturedReceiverView {
    pub reference: bool,
    pub lifetime: Option<Seq<char>>,
    pub mutability: bool,
}

/// The entry operation: a function on the target type that gives the
/// builder in its starting state.
#[derive(Debug, PartialEq, Eq)]
pub struct EntryOperation {
    pub doc: Vec<Attribute>,
    pub vis: Visibility,
    pub name: String,
    pub generics: Generics,
    pub receiver: Option<Receiver>,
    pub alias_args: Option<AngleBracketedGenericArguments>,
}

pub struct EntryOperationView {
    pub doc: Seq<AttributeView>,
    pub vis: VisibilityView,
    pub name: Seq<char>,
    pub generics: GenericsView,
    pub receiver: Option<ReceiverView>,
    pub alias_args: Option<AngleBracketedView>,
}

/// The alias under which callers know the builder in its starting state.
#[derive(Debug, PartialEq, Eq)]
pub struct BuilderAlias {
    pub vis: Visibility,
    pub name: String,
    pub args: AngleBracketedGenericArguments,
    pub builder_args: AngleBracketedGenericArguments,
}

pub struct BuilderAliasView {
    pub vis: VisibilityView,
    pub name: Seq<char>,
    pub args: AngleBracketedView,
    pub builder_args: AngleBracketedView,
}

/// The function that makes the builder in its starting state.
#[derive(Debug, PartialEq, Eq)]
pub struct Constructor {
    pub generics: Generics,
    pub return_args: AngleBracketedGenericArguments,
    pub initial_state: Vec<Expr>,
}

pub struct ConstructorView {
    pub generics: GenericsView,
    pub return_args: AngleBracketedView,
    pub initial_state: Seq<ExprView>,
}

/// The exit operation: defined on the builder whose slots all convert
/// into a held value, it hands the final value of each slot to the
/// factory.
#[derive(Debug, PartialEq, Eq)]
pub struct ExitOperation {
    pub generics: Generics,
    pub self_args: AngleBracketedGenericArguments,
    pub is_async: bool,
    pub name: String,
    pub return_type: ReturnType,
    pub delegate_name: String,
    pub delegate_args: Vec<Expr>,
}

pub struct ExitOperationView {
    pub generics: GenericsView,
    pub self_args: AngleBracketedView,
    pub is_async: bool,
    pub name: Seq<char>,
    pub return_type: ReturnTypeView,
    pub delegate_name: Seq<char>,
    pub delegate_args: Seq<ExprView>,
}

/// The builder protocol of one factory.
#[derive(Debug, PartialEq, Eq)]
pub struct Protocol {
    pub target_name: String,
    pub target_generics: Generics,
    pub module_name: String,
    pub builder_name: String,
    pub builder_vis: Visibility,
    pub builder_generics: Generics,
    pub phantom_args: Option<Vec<GenericArgument>>,
    pub receiver: Option<CapturedReceiver>,
    pub entry: EntryOperation,
    pub alias: BuilderAlias,
    pub constructor: Constructor,
    pub methods: Vec<FieldMethods>,
    pub exit: ExitOperation,
}

pub struct ProtocolView {
    pub target_name: Seq<char>,
    pub target_generics: GenericsView,
    pub module_name: Seq<char>,
    pub builder_name: Seq<char>,
    pub builder_vis: VisibilityView,
    pub builder_generics: GenericsView,
    pub phantom_args: Option<Seq<GenericArgumentView>>,
    pub receiver: Option<CapturedReceiverView>,
    pub entry: EntryOperationView,
    pub alias: BuilderAliasView,
    pub constructor: ConstructorView,
    pub methods: Seq<FieldMethodsView>,
    pub exit: ExitOperationView,
}

impl View for IntoBound {
    type V = IntoBoundView;

    open spec fn view(&self) -> IntoBoundView {
        IntoBoundView { param: self.param@, target: opt_type_view(self.target) }
    }
}

impl View for OperationParam {
    type V = OperationParamView;

    open spec fn view(&self) -> OperationParamView {
        OperationParamView { name: self.name@, ty: opt_type_view(self.ty), into: self.into }
    }
}

impl View for Operation {
    type V = OperationView;

    open spec fn view(&self) -> OperationView {
        OperationView {
            name: self.name@,
            action: self.action,
            into_bounds: self.into_bounds@.map_values(|b: IntoBound| b@),
            params: self.params@.map_values(|p: OperationParam| p@),
            transitions: self.transitions,
            where_clause: self.where_clause,
        }
    }
}

/// The views of a sequence of operations.
pub open spec fn operations_view(s: Seq<Operation>) -> Seq<OperationView> {
    s.map_values(|o: Operation| o@)
}

impl View for FieldMethods {
    type V = FieldMethodsView;

    open spec fn view(&self) -> FieldMethodsView {
        FieldMethodsView {
            doc: attributes_view(self.doc@),
            index: self.index,
            field_name: self.field_name@,
            kind: self.kind,
            ty: self.ty@,
            generics: self.generics@,
            before: self.before@,
            after: self.after@,
            where_clause: match self.where_clause {
                Some(w) => Some(w@),
                None => None,
            },
            new_state: self.new_state@,
            operations: operations_view(self.operations@),
        }
    }
}

/// The views of the operations of a sequence of slots.
pub open spec fn methods_view(s: Seq<FieldMethods>) -> Seq<FieldMethodsView> {
    s.map_values(|m: FieldMethods| m@)
}

impl View for CapturedReceiver {
    type V = CapturedReceiverView;

    open spec fn view(&self) -> CapturedReceiverView {
        CapturedReceiverView {
            reference: self.reference,
            lifetime: opt_str_view(self.lifetime),
            mutability: self.mutability,
        }
    }
}

/// The view of an optional argument list.
pub open spec fn opt_angle_view(a: Option<AngleBracketedGenericArguments>) -> Option<
    AngleBracketedView,
> {
    match a {
        Some(a) => Some(a@),
        None => None,
    }
}

impl View for EntryOperation {
    type V = EntryOperationView;

    open spec fn view(&self) -> EntryOperationView {
        EntryOperationView {
            doc: attributes_view(self.doc@),
            vis: self.vis@,
            name: self.name@,
            generics: self.generics@,
            receiver: opt_receiver_view(self.receiver),
            alias_args: opt_angle_view(self.alias_args),
        }
    }
}

impl View for BuilderAlias {
    type V = BuilderAliasView;

    open spec fn view(&self) -> BuilderAliasView {
        BuilderAliasView {
            vis: self.vis@,
            name: self.name@,
            args: self.args@,
            builder_args: self.builder_args@,
        }
    }
}

impl View for Constructor {
    type V = ConstructorView;

    open spec fn view(&self) -> ConstructorView {
        ConstructorView {
            generics: self.generics@,
            return_args: self.return_args@,
            initial_state: exprs_view(self.initial_state@),
        }
    }
}

impl View for ExitOperation {
    type V = ExitOperationView;

    open spec fn view(&self) -> ExitOperationView {
        ExitOperationView {
            generics: self.generics@,
            self_args: self.self_args@,
            is_async: self.is_async,
            name: self.name@,
            return_type: self.return_type@,
            delegate_name: self.delegate_name@,
            delegate_args: exprs_view(self.delegate_args@),
        }
    }
}

impl View for Protocol {
    type V = ProtocolView;

    open spec fn view(&self) -> ProtocolView {
        ProtocolView {
            target_name: self.target_name@,
            target_generics: self.target_generics@,
            module_name: self.module_name@,
            builder_name: self.builder_name@,
            builder_vis: self.builder_vis@,
            builder_generics: self.builder_generics@,
            phantom_args: match self.phantom_args {
                Some(a) => Some(arguments_view(a@)),
                None => None,
            },
            receiver: match self.receiver {
                Some(r) => Some(r@),
                None => None,
            },
            entry: self.entry@,
            alias: self.alias@,
            constructor: self.constructor@,
            methods: methods_view(self.methods@),
            exit: self.exit@,
        }
    }
}

} // verus!
