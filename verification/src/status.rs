//! Installation status values and resolution errors.
//!
//! A resolution attempt reports its progress to the host through
//! `InstallationStatus` values and ends either with a binary path or with a
//! `ResolveError`. Every error carries a human-readable message; the message
//! of a failed install embeds the captured standard-error text.

use vstd::prelude::*;
use vstd::string::StringExecFns;

verus! {

/// Progress of an installation attempt, reported to the host. `Cleared`
/// removes a previously shown status.
pub enum InstallationStatus {
    CheckingForUpdate,
    Downloading,
    Downloaded,
    Failed(String),
    Cleared,
}

/// Mathematical image of `InstallationStatus`, with the failure message as a
/// character sequence.
pub ghost enum StatusView {
    CheckingForUpdate,
    Downloading,
    Downloaded,
    Failed(Seq<char>),
    Cleared,
}

impl View for InstallationStatus {
    type V = StatusView;

    open spec fn view(&self) -> StatusView {
        match self {
            InstallationStatus::CheckingForUpdate => StatusView::CheckingForUpdate,
            InstallationStatus::Downloading => StatusView::Downloading,
            InstallationStatus::Downloaded => StatusView::Downloaded,
            InstallationStatus::Failed(m) => StatusView::Failed(m@),
            InstallationStatus::Cleared => StatusView::Cleared,
        }
    }
}

/// Why a resolution attempt ended without a binary. Every variant is
/// terminal for the attempt; none is retried.
pub enum ResolveError {
    ToolchainMissing,
    PackageListFailed,
    InstallFailed(String),
    GlobalRootLookupFailed,
    BinaryNotFound,
}

/// Mathematical image of `ResolveError`.
pub ghost enum ErrorView {
    ToolchainMissing,
    PackageListFailed,
    InstallFailed(Seq<char>),
    GlobalRootLookupFailed,
    BinaryNotFound,
}

impl View for ResolveError {
    type V = ErrorView;

    open spec fn view(&self) -> ErrorView {
        match self {
            ResolveError::ToolchainMissing => ErrorView::ToolchainMissing,
            ResolveError::PackageListFailed => ErrorView::PackageListFailed,
            ResolveError::InstallFailed(m) => ErrorView::InstallFailed(m@),
            ResolveError::GlobalRootLookupFailed => ErrorView::GlobalRootLookupFailed,
            ResolveError::BinaryNotFound => ErrorView::BinaryNotFound,
        }
    }
}

/// Message shown when the toolchain probe fails.
pub open spec fn toolchain_missing_text() -> Seq<char> {
    "Node.js toolchain (node and npm) not found. Please install Node.js from https://nodejs.org/\n\nThe extension will provide syntax highlighting only."@
}

/// Message shown when the installed-package query cannot be run.
pub open spec fn package_list_failed_text() -> Seq<char> {
    "Failed to query the installed packages with npm. Please check your npm installation."@
}

/// Prefix of the message shown when the install command exits with an error.
pub open spec fn install_fail_prefix() -> Seq<char> {
    "Failed to install dbml-language-server. Error: "@
}

/// Remediation suggestions appended to a failed-install message.
pub open spec fn install_fail_suffix() -> Seq<char> {
    "\n\nSuggestions: check your network connection, free up disk space, or install manually with `npm install -g dbml-language-server`."@
}

/// Message shown when the install command cannot be run at all.
pub open spec fn install_launch_failed_text() -> Seq<char> {
    "Failed to run npm install. Please check your npm installation."@
}

/// Message shown when the global root query fails.
pub open spec fn root_lookup_failed_text() -> Seq<char> {
    "Failed to resolve the npm global root directory."@
}

/// Message shown when no candidate binary path exists.
pub open spec fn binary_not_found_text() -> Seq<char> {
    "Failed to locate the installed language server binary. Please install it manually with `npm install -g dbml-language-server`."@
}

/// Message of a failed install: the captured standard-error text between a
/// fixed explanation and fixed remediation suggestions.
pub open spec fn install_fail_message(stderr: Seq<char>) -> Seq<char> {
    install_fail_prefix() + stderr + install_fail_suffix()
}

/// The message of a failed install carries the captured standard-error text
/// verbatim, directly after the fixed prefix.
pub proof fn lemma_install_fail_message_keeps_stderr(stderr: Seq<char>)
    ensures
        install_fail_message(stderr).subrange(
            install_fail_prefix().len() as int,
            install_fail_prefix().len() + stderr.len() as int,
        ) == stderr,
{
    let p = install_fail_prefix().len() as int;
    assert(install_fail_message(stderr).subrange(p, p + stderr.len()) =~= stderr);
}

/// Builds the failed-install message around the captured standard-error text.
pub fn install_fail_message_string(stderr: &str) -> (r: String)
    ensures
        r@ == install_fail_message(stderr@),
{
    let mut r = "Failed to install dbml-language-server. Error: ".to_owned();
    r.append(stderr);
    r.append(
        "\n\nSuggestions: check your network connection, free up disk space, or install manually with `npm install -g dbml-language-server`.",
    );
    r
}

/// Builds the message shown when the install command cannot be run at all.
pub fn install_launch_failed_string() -> (r: String)
    ensures
        r@ == install_launch_failed_text(),
{
    "Failed to run npm install. Please check your npm installation.".to_owned()
}

/// The message of an error, as rendered for the host and the caller.
pub open spec fn error_text(e: ErrorView) -> Seq<char> {
    match e {
        ErrorView::ToolchainMissing => toolchain_missing_text(),
        ErrorView::PackageListFailed => package_list_failed_text(),
        ErrorView::InstallFailed(m) => m,
        ErrorView::GlobalRootLookupFailed => root_lookup_failed_text(),
        ErrorView::BinaryNotFound => binary_not_found_text(),
    }
}

impl ResolveError {
    /// Human-readable message of this error.
    pub fn message(&self) -> (r: String)
        ensures
            r@ == error_text(self@),
    {
        match self {
            ResolveError::ToolchainMissing => {
                "Node.js toolchain (node and npm) not found. Please install Node.js from https://nodejs.org/\n\nThe extension will provide syntax highlighting only.".to_owned()
            },
            ResolveError::PackageListFailed => {
                "Failed to query the installed packages with npm. Please check your npm installation.".to_owned()
            },
            ResolveError::InstallFailed(m) => m.clone(),
            ResolveError::GlobalRootLookupFailed => {
                "Failed to resolve the npm global root directory.".to_owned()
            },
            ResolveError::BinaryNotFound => {
                "Failed to locate the installed language server binary. Please install it manually with `npm install -g dbml-language-server`.".to_owned()
            },
        }
    }
}

} // verus!
