use vstd::prelude::*;

use crate::text::concat2;
use crate::text::concat4;
use crate::text::lemma_contains_middle;
use crate::text::lemma_contains_of_part;
use crate::text::seq_contains;
use crate::text::str_contains;

verus! {

/// Errors surfaced to callers of the facade.
///
/// `DockerError` carries a message for any failure attributable to the
/// container-runtime daemon or its protocol; `UnexpectedError` carries a
/// message for failures in the facade's own delivery path (for example a
/// sink rejecting a streamed item).
#[derive(Debug, PartialEq)]
pub enum CommandError {
    DockerError(String),
    UnexpectedError(String),
}

impl CommandError {
    /// The human-readable rendering of the error, under its kind's
    /// prefix.
    pub fn message(&self) -> (r: String)
        ensures
            self matches CommandError::DockerError(m) ==> r@ == "Docker API error: "@ + m@,
            self matches CommandError::UnexpectedError(m) ==> r@ == "Unexpected error: "@ + m@,
    {
        match self {
            CommandError::DockerError(m) => concat2("Docker API error: ", m.as_str()),
            CommandError::UnexpectedError(m) => concat2("Unexpected error: ", m.as_str()),
        }
    }
}

/// Message classifying a failure to start a container, keyed on literal
/// phrases in the daemon's text; the first matching rule wins.
pub open spec fn spec_start_container_error(name: Seq<char>, raw: Seq<char>) -> Seq<char> {
    if seq_contains(raw, "No such container"@) {
        "Container '"@ + name + "' not found: "@ + raw
    } else if seq_contains(raw, "permission denied"@) {
        "Permission denied while attempting to start container '"@ + name + "': "@ + raw
    } else {
        "Failed to start container '"@ + name + "': "@ + raw
    }
}

/// Classifies a failed attempt to start the named container.
pub fn start_container_error(name: &str, raw: &str) -> (e: CommandError)
    ensures
        e matches CommandError::DockerError(m) && m@ == spec_start_container_error(name@, raw@),
{
    let m = if str_contains(raw, "No such container") {
        concat4("Container '", name, "' not found: ", raw)
    } else if str_contains(raw, "permission denied") {
        concat4("Permission denied while attempting to start container '", name, "': ", raw)
    } else {
        concat4("Failed to start container '", name, "': ", raw)
    };
    CommandError::DockerError(m)
}

/// Message classifying a failure to kill a container.
pub open spec fn spec_kill_container_error(name: Seq<char>, raw: Seq<char>) -> Seq<char> {
    if seq_contains(raw, "No such container"@) {
        "Container '"@ + name + "' not found: "@ + raw
    } else if seq_contains(raw, "permission denied"@) {
        "Permission denied while attempting to kill container '"@ + name + "': "@ + raw
    } else {
        "Failed to kill container '"@ + name + "': "@ + raw
    }
}

/// Classifies a failed attempt to kill the named container.
pub fn kill_container_error(name: &str, raw: &str) -> (e: CommandError)
    ensures
        e matches CommandError::DockerError(m) && m@ == spec_kill_container_error(name@, raw@),
{
    let m = if str_contains(raw, "No such container") {
        concat4("Container '", name, "' not found: ", raw)
    } else if str_contains(raw, "permission denied") {
        concat4("Permission denied while attempting to kill container '", name, "': ", raw)
    } else {
        concat4("Failed to kill container '", name, "': ", raw)
    };
    CommandError::DockerError(m)
}

/// Message classifying a failure to stop a container.
pub open spec fn spec_stop_container_error(name: Seq<char>, raw: Seq<char>) -> Seq<char> {
    if seq_contains(raw, "No such container"@) {
        "Container '"@ + name + "' not found: "@ + raw
    } else if seq_contains(raw, "permission denied"@) {
        "Permission denied while attempting to stop container '"@ + name + "': "@ + raw
    } else {
        "Failed to stop container '"@ + name + "': "@ + raw
    }
}

/// Classifies a failed attempt to stop the named container.
pub fn stop_container_error(name: &str, raw: &str) -> (e: CommandError)
    ensures
        e matches CommandError::DockerError(m) && m@ == spec_stop_container_error(name@, raw@),
{
    let m = if str_contains(raw, "No such container") {
        concat4("Container '", name, "' not found: ", raw)
    } else if str_contains(raw, "permission denied") {
        concat4("Permission denied while attempting to stop container '", name, "': ", raw)
    } else {
        concat4("Failed to stop container '", name, "': ", raw)
    };
    CommandError::DockerError(m)
}

/// Message classifying a failure to delete a container.
pub open spec fn spec_delete_container_error(name: Seq<char>, raw: Seq<char>) -> Seq<char> {
    if seq_contains(raw, "No such container"@) {
        "Container '"@ + name + "' not found: "@ + raw
    } else if seq_contains(raw, "permission denied"@) {
        "Permission denied while attempting to delete container '"@ + name + "': "@ + raw
    } else {
        "Failed to delete container '"@ + name + "': "@ + raw
    }
}

/// Classifies a failed attempt to delete the named container.
pub fn delete_container_error(name: &str, raw: &str) -> (e: CommandError)
    ensures
        e matches CommandError::DockerError(m) && m@ == spec_delete_container_error(name@, raw@),
{
    let m = if str_contains(raw, "No such container") {
        concat4("Container '", name, "' not found: ", raw)
    } else if str_contains(raw, "permission denied") {
        concat4("Permission denied while attempting to delete container '", name, "': ", raw)
    } else {
        concat4("Failed to delete container '", name, "': ", raw)
    };
    CommandError::DockerError(m)
}

/// Message classifying a failure to remove an image, keyed on the image
/// reference.
pub open spec fn spec_remove_image_error(image: Seq<char>, raw: Seq<char>) -> Seq<char> {
    if seq_contains(raw, "No such image"@) {
        "image '"@ + image + "' not found: "@ + raw
    } else if seq_contains(raw, "permission denied"@) {
        "Permission denied while attempting '"@ + image + "': "@ + raw
    } else {
        "Failed to remove image '"@ + image + "': "@ + raw
    }
}

/// Classifies a failed attempt to remove the referenced image.
pub fn remove_image_error(image: &str, raw: &str) -> (e: CommandError)
    ensures
        e matches CommandError::DockerError(m) && m@ == spec_remove_image_error(image@, raw@),
{
    let m = if str_contains(raw, "No such image") {
        concat4("image '", image, "' not found: ", raw)
    } else if str_contains(raw, "permission denied") {
        concat4("Permission denied while attempting '", image, "': ", raw)
    } else {
        concat4("Failed to remove image '", image, "': ", raw)
    };
    CommandError::DockerError(m)
}

/// Message classifying a failure to remove a volume: a missing volume, a
/// volume still in use, and a residual case.
pub open spec fn spec_remove_volume_error(name: Seq<char>, raw: Seq<char>) -> Seq<char> {
    if seq_contains(raw, "No such volume"@) {
        "Volume '"@ + name + "' not found: "@ + raw
    } else if seq_contains(raw, "in use"@) {
        "Volume '"@ + name + "' is in use and cannot be removed: "@ + raw
    } else {
        "Failed to remove volume '"@ + name + "': "@ + raw
    }
}

/// Classifies a failed attempt to remove the named volume.
pub fn remove_volume_error(name: &str, raw: &str) -> (e: CommandError)
    ensures
        e matches CommandError::DockerError(m) && m@ == spec_remove_volume_error(name@, raw@),
{
    let m = if str_contains(raw, "No such volume") {
        concat4("Volume '", name, "' not found: ", raw)
    } else if str_contains(raw, "in use") {
        concat4("Volume '", name, "' is in use and cannot be removed: ", raw)
    } else {
        concat4("Failed to remove volume '", name, "': ", raw)
    };
    CommandError::DockerError(m)
}

/// Message classifying a failure to remove a network.
pub open spec fn spec_remove_network_error(id: Seq<char>, raw: Seq<char>) -> Seq<char> {
    if seq_contains(raw, "not found"@) {
        "Network '"@ + id + "' not found: "@ + raw
    } else if seq_contains(raw, "in use"@) {
        "Network '"@ + id + "' is in use: "@ + raw
    } else {
        "Failed to remove network '"@ + id + "': "@ + raw
    }
}

/// Classifies a failed attempt to remove the identified network.
pub fn remove_network_error(id: &str, raw: &str) -> (e: CommandError)
    ensures
        e matches CommandError::DockerError(m) && m@ == spec_remove_network_error(id@, raw@),
{
    let m = if str_contains(raw, "not found") {
        concat4("Network '", id, "' not found: ", raw)
    } else if str_contains(raw, "in use") {
        concat4("Network '", id, "' is in use: ", raw)
    } else {
        concat4("Failed to remove network '", id, "': ", raw)
    };
    CommandError::DockerError(m)
}

/// A daemon failure surfaced with the raw text alone, as the listing
/// operations report it.
pub fn plain_daemon_error(raw: String) -> (e: CommandError)
    ensures
        e matches CommandError::DockerError(m) && m@ == raw@,
{
    CommandError::DockerError(raw)
}

/// A daemon failure surfaced under a fixed human-readable prefix.
pub fn prefixed_daemon_error(prefix: &str, raw: &str) -> (e: CommandError)
    ensures
        e matches CommandError::DockerError(m) && m@ == prefix@ + raw@,
{
    CommandError::DockerError(concat2(prefix, raw))
}

/// A failure of the facade's own delivery path, surfaced under a fixed
/// human-readable prefix.
pub fn prefixed_unexpected_error(prefix: &str, raw: &str) -> (e: CommandError)
    ensures
        e matches CommandError::UnexpectedError(m) && m@ == prefix@ + raw@,
{
    CommandError::UnexpectedError(concat2(prefix, raw))
}

/// When the daemon's text names a missing container, the classified stop
/// message carries both the phrase "not found" and the container's name.
pub proof fn lemma_stop_error_names_missing_container(name: Seq<char>, raw: Seq<char>)
    requires
        seq_contains(raw, "No such container"@),
    ensures
        seq_contains(spec_stop_container_error(name, raw), "not found"@),
        seq_contains(spec_stop_container_error(name, raw), name),
{
    let msg = spec_stop_container_error(name, raw);
    let pre = "Container '"@;
    let lit = "' not found: "@;
    assert(msg =~= pre + name + (lit + raw));
    lemma_contains_middle(pre, name, lit + raw);
    reveal_strlit("' not found: ");
    reveal_strlit("not found");
    assert(lit.subrange(2, 11) =~= "not found"@);
    assert(msg =~= (pre + name) + lit + raw);
    lemma_contains_of_part(pre + name, lit, "not found"@, 2, raw);
}

/// The two specialized remove-volume failures are told apart by message
/// content: a missing volume is reported as not found, a volume that is
/// still referenced is reported as in use.
pub proof fn lemma_remove_volume_error_distinguishes(name: Seq<char>, raw: Seq<char>)
    ensures
        seq_contains(raw, "No such volume"@) ==> seq_contains(
            spec_remove_volume_error(name, raw),
            "not found"@,
        ),
        !seq_contains(raw, "No such volume"@) && seq_contains(raw, "in use"@) ==> seq_contains(
            spec_remove_volume_error(name, raw),
            "is in use and cannot be removed"@,
        ),
{
    let msg = spec_remove_volume_error(name, raw);
    let pre = "Volume '"@;
    if seq_contains(raw, "No such volume"@) {
        let lit = "' not found: "@;
        assert(msg =~= (pre + name) + lit + raw);
        reveal_strlit("' not found: ");
        reveal_strlit("not found");
        assert(lit.subrange(2, 11) =~= "not found"@);
        lemma_contains_of_part(pre + name, lit, "not found"@, 2, raw);
    } else if seq_contains(raw, "in use"@) {
        let lit = "' is in use and cannot be removed: "@;
        assert(msg =~= (pre + name) + lit + raw);
        reveal_strlit("' is in use and cannot be removed: ");
        reveal_strlit("is in use and cannot be removed");
        assert(lit.subrange(2, 33) =~= "is in use and cannot be removed"@);
        lemma_contains_of_part(pre + name, lit, "is in use and cannot be removed"@, 2, raw);
    }
}

} // verus!
