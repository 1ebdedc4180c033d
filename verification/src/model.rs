//! The syntax-tree model the extractor walks.
//!
//! A parser (outside this library) lowers each source module into this closed
//! set of tagged variants; the extractor classifies them by exhaustive
//! matching. The model keeps exactly what export/usage classification reads:
//! names, string specifiers, and the nesting that matters for alias scoping.
//! A lowering convention keeps the shapes small: the body of a declared class
//! or function is handed over as a statement following the declaration item.

use vstd::prelude::*;

verus! {

/// One parsed source module: its items in declaration order.
pub struct Module {
    pub items: Vec<ModuleItem>,
}

/// A top-level item of a module.
pub enum ModuleItem {
    /// `import ... from "specifier"`.
    Import(ImportDecl),
    /// `export` in front of a declaration (`export class C`, `export const x = ...`).
    ExportDecl(Decl),
    /// `export { a, b as c }`, `export * as ns from "specifier"`.
    ExportNamed(Vec<ExportSpecifier>),
    /// `export * from "specifier"` (the specifier).
    ExportAll(String),
    /// `export default class ... / function ...` (body lowered as a following statement).
    ExportDefaultDecl,
    /// `export default <expr>` (the expression, which is still traversed).
    ExportDefaultExpr(Expr),
    /// An ordinary statement.
    Stmt(Stmt),
    /// A module-level declaration form the extractor does not recognize.
    OtherDecl,
}

/// `import ... from "specifier"`: the specifier and the import specifiers.
pub struct ImportDecl {
    pub specifier: String,
    pub specifiers: Vec<ImportSpecifier>,
}

/// One specifier of an `import` declaration.
pub enum ImportSpecifier {
    /// `import { a }` (imported `None`) or `import { a as b }` (imported `Some(a)`, local `b`).
    Named { imported: Option<String>, local: String },
    /// `import X from "specifier"`.
    Default,
    /// `import * as local from "specifier"`.
    Namespace(String),
}

/// One specifier of an `export { ... }` declaration.
pub enum ExportSpecifier {
    /// `export { a }` (exported `None`) or `export { a as b }` (exported `Some(b)`).
    Named { orig: String, exported: Option<String> },
    /// `export * as name from "specifier"`.
    Namespace(String),
    /// A bare default specifier.
    Default,
}

/// A declaration behind `export`.
pub enum Decl {
    /// `export class C` (body lowered as a following statement).
    Class(String),
    /// `export function f` (body lowered as a following statement).
    Fn(String),
    /// `export const/let/var ...`.
    Var(Vec<VarDeclarator>),
    /// `export interface I` (type-only table).
    TsInterface(String),
    /// `export type T = ...` (type-only table).
    TsTypeAlias(String),
    /// `export enum E` (value table).
    TsEnum(String),
    /// A declaration form the extractor does not recognize.
    Other,
}

/// A statement, as far as the extractor cares: variable declarators,
/// expressions, and nesting.
pub enum Stmt {
    /// One `const/let/var` statement's declarators, in order.
    VarDecl(Vec<VarDeclarator>),
    /// An expression statement.
    Expr(Expr),
    /// Any nested statements (a block, a function body, branch arms).
    Block(Vec<Stmt>),
}

/// One declarator of a `const/let/var` statement: `name = init`.
pub struct VarDeclarator {
    pub name: Pat,
    pub init: Option<Expr>,
}

/// A binding pattern.
pub enum Pat {
    /// A plain identifier.
    Ident(String),
    /// An array pattern `[a, , b]`; holes are `None`.
    Array(Vec<Option<Pat>>),
    /// An object pattern `{ a, b: c }`.
    Object(Vec<ObjectPatProp>),
    /// A pattern shape the extractor does not recognize.
    Other,
}

/// One property of an object pattern.
pub enum ObjectPatProp {
    /// `{ a }` or `{ a = default }`: the key, bound under its own name.
    Shorthand(String),
    /// `{ key: pat }`.
    KeyValue(String, Box<Pat>),
    /// A rest or computed property.
    Other,
}

/// An expression, as far as the extractor cares.
pub enum Expr {
    /// An identifier reference.
    Ident(String),
    /// A string literal.
    Str(String),
    /// `obj.prop` or `obj[...]`.
    Member(Box<Expr>, MemberProp),
    /// A call `callee(args...)`.
    Call(Callee, Vec<Expr>),
    /// `(expr)`.
    Paren(Box<Expr>),
    /// `await expr`.
    Await(Box<Expr>),
    /// `expr as T` (the type is erased).
    TsAs(Box<Expr>),
    /// An arrow function: parameters and body.
    Arrow(Vec<Pat>, Vec<Stmt>),
    /// Any other expression; its subexpressions are still traversed.
    Other(Vec<Expr>),
}

/// The property position of a member expression.
pub enum MemberProp {
    /// `.name`.
    Ident(String),
    /// A computed or otherwise unrecognized property.
    Other,
}

/// The callee position of a call expression.
pub enum Callee {
    /// `super(...)`.
    SuperCall,
    /// `import(...)`.
    ImportCall,
    /// An ordinary callee expression.
    Expr(Box<Expr>),
}

} // verus!
