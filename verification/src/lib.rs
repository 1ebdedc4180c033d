//! Detection of exported symbols that no module in an analyzed tree ever
//! consumes, including consumption that only happens through `export *`
//! re-export chains.
//!
//! The library is the analysis core: a per-file extractor that classifies
//! export and import/usage forms over a closed syntax-tree model
//! ([`model`]), accumulators for usage facts and export records
//! ([`analyzer`]), and a finalizer that reconciles the two, tracing
//! re-export edges with last-declaration-wins shadowing ([`report`]).
//! Parsing source text into the model and resolving specifiers to module
//! identities are collaborators outside the core; resolution outcomes reach
//! it as plain values ([`resolve`]).

pub mod analyzer;
pub mod extract;
pub mod model;
pub mod report;
pub mod resolve;
pub mod sem;
pub mod tables;

pub use analyzer::Analyzer;
pub use analyzer::ExtractError;
pub use analyzer::ImportUsage;
pub use analyzer::ModuleExports;
pub use extract::Diag;
pub use extract::FileAnalyzer;
pub use model::Callee;
pub use model::Decl;
pub use model::ExportSpecifier;
pub use model::Expr;
pub use model::ImportDecl;
pub use model::ImportSpecifier;
pub use model::MemberProp;
pub use model::Module;
pub use model::ModuleItem;
pub use model::ObjectPatProp;
pub use model::Pat;
pub use model::Stmt;
pub use model::VarDeclarator;
pub use report::AnalysisResults;
pub use report::ModuleResults;
pub use resolve::Resolution;
pub use resolve::ResolverTable;
pub use tables::StrMap;
pub use tables::StrSet;
