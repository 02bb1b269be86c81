//! A small library behind a `KUBECONFIG` switcher command.
//!
//! The command keeps Kubernetes configuration files in one directory and
//! prints a shell `export` statement pointing `KUBECONFIG` at a chosen file.
//! Everything the command decides or prints is computed here:
//! tilde expansion of the configured directory path ([`resolve`]) and the
//! exact text written to standard output ([`output`]).

pub mod output;
pub mod resolve;
