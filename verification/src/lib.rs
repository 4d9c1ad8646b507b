//! A conformance suite for catalogs: namespaces with their tables, columns, partitions and files.
//!
//! The suite knows nothing of how a catalog is built. Each of its scenarios is a sequence of
//! requests to a catalog, each of which may depend on the replies before it, and a judgement of
//! each reply. A scenario is given by three functions of the replies that it has heard so far:
//! what it asks for next, whether the last reply is as it has to be, and whether it is done. They
//! stand in [`scenarios`], and [`run`] puts them together. A [`run::Run`] says what comes next and
//! takes the reply; whoever drives it carries the requests out. [`suite`] starts a run of each
//! scenario by name.
//!
//! What replies are compared by stands in [`expect`], as it is meant, and in [`check`], as it is
//! computed. [`nesting`] says what holds of scenarios that run others, and [`laws`] what a catalog
//! has shown once it has passed.
pub mod check;
pub mod expect;
pub mod laws;
pub mod metrics;
pub mod naming;
pub mod nesting;
pub mod order;
pub mod reply;
pub mod request;
pub mod retention;
pub mod run;
pub mod same;
pub mod scenarios;
pub mod sorting;
pub mod suite;
pub mod text;
pub mod types;
