//! What can go wrong with a tool call.

use vstd::prelude::*;
use vstd::string::*;

verus! {

/// Why a tool call gave no output.
#[derive(Debug, PartialEq, Eq)]
pub enum ToolError {
    /// The request names a tool that the server does not have.
    UnknownTool(String),
    /// The console program could not be started.
    Spawn,
    /// The console program was started without a standard input.
    Stdin,
    /// Writing to the console failed; the text says how.
    Write(String),
    /// The output of the console could not be collected.
    Output,
    /// The console printed nothing and did not exit cleanly; the text is what
    /// it wrote to its standard error.
    Failed(String),
}

/// The mathematical value of a [`ToolError`].
pub enum Failure {
    UnknownTool(Seq<char>),
    Spawn,
    Stdin,
    Write(Seq<char>),
    Output,
    Failed(Seq<char>),
}

impl View for ToolError {
    type V = Failure;

    open spec fn view(&self) -> Failure {
        match self {
            ToolError::UnknownTool(name) => Failure::UnknownTool(name@),
            ToolError::Spawn => Failure::Spawn,
            ToolError::Stdin => Failure::Stdin,
            ToolError::Write(detail) => Failure::Write(detail@),
            ToolError::Output => Failure::Output,
            ToolError::Failed(stderr) => Failure::Failed(stderr@),
        }
    }
}

impl Failure {
    /// The text that describes the failure.
    pub open spec fn message(self) -> Seq<char> {
        match self {
            Failure::UnknownTool(name) => "Unknown tool: "@ + name,
            Failure::Spawn => "Failed to spawn bconsole"@,
            Failure::Stdin => "Failed to open stdin"@,
            Failure::Write(detail) => detail,
            Failure::Output => "Failed to read bconsole output"@,
            Failure::Failed(stderr) => "bconsole command failed: "@ + stderr,
        }
    }
}

impl ToolError {
    /// The text that describes the failure.
    pub fn message(&self) -> (text: String)
        ensures
            text@ == self@.message(),
    {
        match self {
            ToolError::UnknownTool(name) => {
                let mut text = String::from_str("Unknown tool: ");
                text.append(name.as_str());
                text
            },
            ToolError::Spawn => String::from_str("Failed to spawn bconsole"),
            ToolError::Stdin => String::from_str("Failed to open stdin"),
            ToolError::Write(detail) => detail.clone(),
            ToolError::Output => String::from_str("Failed to read bconsole output"),
            ToolError::Failed(stderr) => {
                let mut text = String::from_str("bconsole command failed: ");
                text.append(stderr.as_str());
                text
            },
        }
    }
}

} // verus!
