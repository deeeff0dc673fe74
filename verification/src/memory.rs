//! The memory router: core memory, memory blocks, and archival passages.

use crate::backend::{
    failure_error, is_failure_error, is_unexpected_reply, unexpected_reply, BackendFailure,
    Reply, Step,
};
use crate::error::RouterError;
use crate::field::Field;
use crate::ident::{canonical_id, BackendId};
use crate::json::Json;
use crate::settle::Wording;
use crate::text::{add_name, counted, decimal, join3, optional_text, same_text, text_or_empty, with_name};
use crate::validate::{
    first_malformed, first_malformed_from, first_missing, first_missing_from, identify,
    is_invalid_identifier, is_missing, is_not_implemented,
    lemma_malformed_identifier_is_reported, lemma_missing_field_is_reported, malformed, missing,
    not_implemented, require, require_present, Fields,
};
use vstd::prelude::*;
use vstd::string::*;

verus! {

/// The operations of the memory router.
#[derive(Clone, Copy, Debug, PartialEq, Eq, Structural)]
pub enum MemoryOperation {
    GetCoreMemory,
    UpdateCoreMemory,
    GetBlockByLabel,
    ListBlocks,
    CreateBlock,
    GetBlock,
    UpdateBlock,
    AttachBlock,
    DetachBlock,
    ListAgentsUsingBlock,
    SearchArchival,
    ListPassages,
    CreatePassage,
    UpdatePassage,
    DeletePassage,
}

/// A request to the memory router.
#[derive(Clone, Debug, PartialEq, Eq)]
pub struct MemoryUnifiedRequest {
    pub operation: MemoryOperation,
    pub agent_id: Option<String>,
    pub block_id: Option<String>,
    pub block_label: Option<String>,
    pub passage_id: Option<String>,
    pub label: Option<String>,
    pub value: Option<String>,
    pub text: Option<String>,
    pub query: Option<String>,
    pub limit: Option<i32>,
    pub offset: Option<i32>,
    pub is_template: Option<bool>,
    pub request_heartbeat: Option<bool>,
}

/// The envelope of the memory router.
#[derive(Debug, PartialEq, Eq)]
pub struct MemoryUnifiedResponse {
    pub success: bool,
    pub operation: String,
    pub message: String,
    pub agent_id: Option<String>,
    pub block_id: Option<String>,
    pub passage_id: Option<String>,
    pub data: Option<Json>,
    pub blocks: Option<Json>,
    pub passages: Option<Json>,
    pub core_memory: Option<Json>,
    pub count: Option<usize>,
}

/// A backend call of the memory router.
#[derive(Debug, PartialEq, Eq)]
pub enum MemoryCall {
    GetCoreMemory { agent: BackendId },
    UpdateCoreMemoryBlock { agent: BackendId, label: String, value: String },
    GetCoreMemoryBlock { agent: BackendId, label: String },
    ListCoreMemoryBlocks { agent: BackendId },
    CreateBlock { label: String, value: String, is_template: Option<bool> },
    GetBlock { block: BackendId },
    UpdateBlock {
        block: BackendId,
        value: Option<String>,
        label: Option<String>,
        is_template: Option<bool>,
    },
    AttachBlock { agent: BackendId, block: BackendId },
    DetachBlock { agent: BackendId, block: BackendId },
    ListArchival { agent: BackendId, search: Option<String>, limit: Option<u32> },
    CreateArchival { agent: BackendId, text: String },
    DeleteArchival { agent: BackendId, passage: BackendId },
}

/// The state an operation resumes from: the operation, the identifiers that
/// its envelope echoes as the caller wrote them, and the block label that
/// its sentence quotes.
#[derive(Debug, PartialEq, Eq)]
pub struct MemoryPending {
    pub operation: MemoryOperation,
    pub agent_id: Option<String>,
    pub block_id: Option<String>,
    pub passage_id: Option<String>,
    pub block_label: Option<String>,
}

/// A step of the memory router.
pub type MemoryStep = Step<MemoryCall, MemoryPending, MemoryUnifiedResponse>;

/// The page size handed to the backend for a caller's `limit`: the same
/// number where it is not negative, and the number taken modulo 2^32
/// otherwise.
pub open spec fn page_limit_spec(limit: Option<i32>) -> Option<u32> {
    match limit {
        Some(l) => if l >= 0 {
            Some(l as u32)
        } else {
            Some((l + 0x1_0000_0000) as u32)
        },
        None => None,
    }
}

/// The page size handed to the backend for a caller's `limit`.
pub fn page_limit(limit: Option<i32>) -> (r: Option<u32>)
    ensures
        r == page_limit_spec(limit),
{
    match limit {
        Some(l) => if l >= 0 {
            Some(l as u32)
        } else {
            Some((l as i64 + 0x1_0000_0000) as u32)
        },
        None => None,
    }
}

impl MemoryOperation {
    /// The operation's name on the wire.
    pub open spec fn name_spec(self) -> Seq<char> {
        self.wording().operation@
    }

    /// The fields the operation requires, in the order they are checked.
    pub open spec fn required(self) -> Seq<Field> {
        match self {
            MemoryOperation::GetCoreMemory => seq![Field::AgentId],
            MemoryOperation::UpdateCoreMemory => seq![
                Field::AgentId,
                Field::BlockLabel,
                Field::Value,
            ],
            MemoryOperation::GetBlockByLabel => seq![Field::AgentId, Field::BlockLabel],
            MemoryOperation::ListBlocks => seq![Field::AgentId],
            MemoryOperation::CreateBlock => seq![Field::Label, Field::Value],
            MemoryOperation::GetBlock => seq![Field::BlockId],
            MemoryOperation::UpdateBlock => seq![Field::BlockId],
            MemoryOperation::AttachBlock => seq![Field::AgentId, Field::BlockId],
            MemoryOperation::DetachBlock => seq![Field::AgentId, Field::BlockId],
            MemoryOperation::ListAgentsUsingBlock => seq![],
            MemoryOperation::SearchArchival => seq![Field::AgentId, Field::Query],
            MemoryOperation::ListPassages => seq![Field::AgentId],
            MemoryOperation::CreatePassage => seq![Field::AgentId, Field::Text],
            MemoryOperation::UpdatePassage => seq![],
            MemoryOperation::DeletePassage => seq![Field::AgentId, Field::PassageId],
        }
    }

    /// The identifier fields the operation parses, in the order they are
    /// parsed.
    pub open spec fn identifiers(self) -> Seq<Field> {
        match self {
            MemoryOperation::CreateBlock => seq![],
            MemoryOperation::GetBlock => seq![Field::BlockId],
            MemoryOperation::UpdateBlock => seq![Field::BlockId],
            MemoryOperation::AttachBlock => seq![Field::AgentId, Field::BlockId],
            MemoryOperation::DetachBlock => seq![Field::AgentId, Field::BlockId],
            MemoryOperation::ListAgentsUsingBlock => seq![],
            MemoryOperation::UpdatePassage => seq![],
            MemoryOperation::DeletePassage => seq![Field::AgentId, Field::PassageId],
            _ => seq![Field::AgentId],
        }
    }

    /// Whether the backend integration can perform the operation.
    pub open spec fn available(self) -> bool {
        self != MemoryOperation::ListAgentsUsingBlock && self != MemoryOperation::UpdatePassage
    }

    /// Whether the envelope echoes the agent's identifier.
    pub open spec fn echoes_agent(self) -> bool {
        self.available() && self != MemoryOperation::CreateBlock && self
            != MemoryOperation::GetBlock && self != MemoryOperation::UpdateBlock
    }

    /// Whether the envelope echoes the block's identifier.
    pub open spec fn echoes_block(self) -> bool {
        self == MemoryOperation::GetBlock || self == MemoryOperation::UpdateBlock || self
            == MemoryOperation::AttachBlock || self == MemoryOperation::DetachBlock
    }

    /// Whether the operation's sentence quotes the block label.
    pub open spec fn quotes_label(self) -> bool {
        self == MemoryOperation::UpdateCoreMemory || self == MemoryOperation::GetBlockByLabel
    }

    pub open spec fn wording_spec(self) -> Wording {
        match self {
            MemoryOperation::GetCoreMemory => Wording {
                operation: "get_core_memory",
                context: "Failed to get core memory",
                fixed: "Core memory retrieved successfully",
                before: "",
                after: "",
            },
            MemoryOperation::UpdateCoreMemory => Wording {
                operation: "update_core_memory",
                context: "Failed to update core memory",
                fixed: "",
                before: "Core memory block '",
                after: "' updated successfully",
            },
            MemoryOperation::GetBlockByLabel => Wording {
                operation: "get_block_by_label",
                context: "Failed to get block by label",
                fixed: "",
                before: "Block '",
                after: "' retrieved successfully",
            },
            MemoryOperation::ListBlocks => Wording {
                operation: "list_blocks",
                context: "Failed to list blocks",
                fixed: "",
                before: "Found ",
                after: " blocks",
            },
            MemoryOperation::CreateBlock => Wording {
                operation: "create_block",
                context: "Failed to create block",
                fixed: "Block created successfully",
                before: "",
                after: "",
            },
            MemoryOperation::GetBlock => Wording {
                operation: "get_block",
                context: "Failed to get block",
                fixed: "Block retrieved successfully",
                before: "",
                after: "",
            },
            MemoryOperation::UpdateBlock => Wording {
                operation: "update_block",
                context: "Failed to update block",
                fixed: "Block updated successfully",
                before: "",
                after: "",
            },
            MemoryOperation::AttachBlock => Wording {
                operation: "attach_block",
                context: "Failed to attach block",
                fixed: "Block attached to agent successfully",
                before: "",
                after: "",
            },
            MemoryOperation::DetachBlock => Wording {
                operation: "detach_block",
                context: "Failed to detach block",
                fixed: "Block detached from agent successfully",
                before: "",
                after: "",
            },
            MemoryOperation::ListAgentsUsingBlock => Wording {
                operation: "list_agents_using_block",
                context: "",
                fixed: "list_agents_using_block not yet implemented - requires custom query",
                before: "",
                after: "",
            },
            MemoryOperation::SearchArchival => Wording {
                operation: "search_archival",
                context: "Failed to search archival",
                fixed: "",
                before: "Found ",
                after: " passages",
            },
            MemoryOperation::ListPassages => Wording {
                operation: "list_passages",
                context: "Failed to list passages",
                fixed: "",
                before: "Found ",
                after: " passages",
            },
            MemoryOperation::CreatePassage => Wording {
                operation: "create_passage",
                context: "Failed to create passage",
                fixed: "Passage created successfully",
                before: "",
                after: "",
            },
            MemoryOperation::UpdatePassage => Wording {
                operation: "update_passage",
                context: "",
                fixed: "update_passage not yet implemented - SDK requires embedding data not available from client",
                before: "",
                after: "",
            },
            MemoryOperation::DeletePassage => Wording {
                operation: "delete_passage",
                context: "Failed to delete passage",
                fixed: "Passage deleted successfully",
                before: "",
                after: "",
            },
        }
    }

    /// The operation's words.  For an operation that is not available,
    /// `fixed` names the missing capability.
    #[verifier::when_used_as_spec(wording_spec)]
    pub fn wording(self) -> (w: Wording)
        ensures
            w == self.wording_spec(),
    {
        match self {
            MemoryOperation::GetCoreMemory => Wording {
                operation: "get_core_memory",
                context: "Failed to get core memory",
                fixed: "Core memory retrieved successfully",
                before: "",
                after: "",
            },
            MemoryOperation::UpdateCoreMemory => Wording {
                operation: "update_core_memory",
                context: "Failed to update core memory",
                fixed: "",
                before: "Core memory block '",
                after: "' updated successfully",
            },
            MemoryOperation::GetBlockByLabel => Wording {
                operation: "get_block_by_label",
                context: "Failed to get block by label",
                fixed: "",
                before: "Block '",
                after: "' retrieved successfully",
            },
            MemoryOperation::ListBlocks => Wording {
                operation: "list_blocks",
                context: "Failed to list blocks",
                fixed: "",
                before: "Found ",
                after: " blocks",
            },
            MemoryOperation::CreateBlock => Wording {
                operation: "create_block",
                context: "Failed to create block",
                fixed: "Block created successfully",
                before: "",
                after: "",
            },
            MemoryOperation::GetBlock => Wording {
                operation: "get_block",
                context: "Failed to get block",
                fixed: "Block retrieved successfully",
                before: "",
                after: "",
            },
            MemoryOperation::UpdateBlock => Wording {
                operation: "update_block",
                context: "Failed to update block",
                fixed: "Block updated successfully",
                before: "",
                after: "",
            },
            MemoryOperation::AttachBlock => Wording {
                operation: "attach_block",
                context: "Failed to attach block",
                fixed: "Block attached to agent successfully",
                before: "",
                after: "",
            },
            MemoryOperation::DetachBlock => Wording {
                operation: "detach_block",
                context: "Failed to detach block",
                fixed: "Block detached from agent successfully",
                before: "",
                after: "",
            },
            MemoryOperation::ListAgentsUsingBlock => Wording {
                operation: "list_agents_using_block",
                context: "",
                fixed: "list_agents_using_block not yet implemented - requires custom query",
                before: "",
                after: "",
            },
            MemoryOperation::SearchArchival => Wording {
                operation: "search_archival",
                context: "Failed to search archival",
                fixed: "",
                before: "Found ",
                after: " passages",
            },
            MemoryOperation::ListPassages => Wording {
                operation: "list_passages",
                context: "Failed to list passages",
                fixed: "",
                before: "Found ",
                after: " passages",
            },
            MemoryOperation::CreatePassage => Wording {
                operation: "create_passage",
                context: "Failed to create passage",
                fixed: "Passage created successfully",
                before: "",
                after: "",
            },
            MemoryOperation::UpdatePassage => Wording {
                operation: "update_passage",
                context: "",
                fixed: "update_passage not yet implemented - SDK requires embedding data not available from client",
                before: "",
                after: "",
            },
            MemoryOperation::DeletePassage => Wording {
                operation: "delete_passage",
                context: "Failed to delete passage",
                fixed: "Passage deleted successfully",
                before: "",
                after: "",
            },
        }
    }

    /// The operation's name on the wire.
    pub fn name(self) -> (s: &'static str)
        ensures
            s@ == self.name_spec(),
    {
        self.wording().operation
    }
}

impl Fields for MemoryUnifiedRequest {
    open spec fn has_field(&self, f: Field) -> bool {
        match f {
            Field::AgentId => self.agent_id is Some,
            Field::BlockId => self.block_id is Some,
            Field::BlockLabel => self.block_label is Some,
            Field::PassageId => self.passage_id is Some,
            Field::Label => self.label is Some,
            Field::Value => self.value is Some,
            Field::Text => self.text is Some,
            Field::Query => self.query is Some,
            _ => false,
        }
    }

    open spec fn raw_identifier(&self, f: Field) -> Option<Seq<char>> {
        match f {
            Field::AgentId => match self.agent_id {
                Some(t) => Some(t@),
                None => None,
            },
            Field::BlockId => match self.block_id {
                Some(t) => Some(t@),
                None => None,
            },
            Field::PassageId => match self.passage_id {
                Some(t) => Some(t@),
                None => None,
            },
            _ => None,
        }
    }
}

impl MemoryUnifiedRequest {
    /// Whether the request sets any field that a block update can change.
    pub open spec fn has_changes(self) -> bool {
        self.value is Some || self.label is Some || self.is_template is Some
    }
}

/// Whether `call` is the one backend call that the request's operation
/// makes, built from the request's fields.
pub open spec fn is_memory_call(request: MemoryUnifiedRequest, call: MemoryCall) -> bool {
    let agent_id = canonical_id(request.agent_id->0@);
    let block_id = canonical_id(request.block_id->0@);
    let passage_id = canonical_id(request.passage_id->0@);
    match request.operation {
        MemoryOperation::GetCoreMemory => call matches MemoryCall::GetCoreMemory { agent }
            && agent@ == agent_id,
        MemoryOperation::UpdateCoreMemory => call matches MemoryCall::UpdateCoreMemoryBlock {
            agent,
            label,
            value,
        } && agent@ == agent_id && Some(label) == request.block_label && Some(value)
            == request.value,
        MemoryOperation::GetBlockByLabel => call matches MemoryCall::GetCoreMemoryBlock {
            agent,
            label,
        } && agent@ == agent_id && Some(label) == request.block_label,
        MemoryOperation::ListBlocks => call matches MemoryCall::ListCoreMemoryBlocks { agent }
            && agent@ == agent_id,
        MemoryOperation::CreateBlock => call matches MemoryCall::CreateBlock {
            label,
            value,
            is_template,
        } && Some(label) == request.label && Some(value) == request.value && is_template
            == request.is_template,
        MemoryOperation::GetBlock => call matches MemoryCall::GetBlock { block } && block@
            == block_id,
        MemoryOperation::UpdateBlock => call matches MemoryCall::UpdateBlock {
            block,
            value,
            label,
            is_template,
        } && block@ == block_id && value == request.value && label == request.label
            && is_template == request.is_template,
        MemoryOperation::AttachBlock => call matches MemoryCall::AttachBlock { agent, block }
            && agent@ == agent_id && block@ == block_id,
        MemoryOperation::DetachBlock => call matches MemoryCall::DetachBlock { agent, block }
            && agent@ == agent_id && block@ == block_id,
        MemoryOperation::SearchArchival => call matches MemoryCall::ListArchival {
            agent,
            search,
            limit,
        } && agent@ == agent_id && search == request.query && limit == page_limit_spec(
            request.limit,
        ),
        MemoryOperation::ListPassages => call matches MemoryCall::ListArchival {
            agent,
            search,
            limit,
        } && agent@ == agent_id && search is None && limit == page_limit_spec(request.limit),
        MemoryOperation::CreatePassage => call matches MemoryCall::CreateArchival { agent, text }
            && agent@ == agent_id && Some(text) == request.text,
        MemoryOperation::DeletePassage => call matches MemoryCall::DeleteArchival {
            agent,
            passage,
        } && agent@ == agent_id && passage@ == passage_id,
        _ => false,
    }
}

/// The state that the request's operation resumes from.
pub open spec fn memory_pending_for(request: MemoryUnifiedRequest) -> MemoryPending {
    let op = request.operation;
    MemoryPending {
        operation: op,
        agent_id: if op.echoes_agent() {
            request.agent_id
        } else {
            None
        },
        block_id: if op.echoes_block() {
            request.block_id
        } else {
            None
        },
        passage_id: if op == MemoryOperation::DeletePassage {
            request.passage_id
        } else {
            None
        },
        block_label: if op.quotes_label() {
            request.block_label
        } else {
            None
        },
    }
}

/// Whether `r` is what the router owes for `request`.
pub open spec fn memory_dispatch_post(
    request: MemoryUnifiedRequest,
    r: Result<MemoryStep, RouterError>,
) -> bool {
    let op = request.operation;
    let name = op.name_spec();
    match first_missing(op.required(), request) {
        Some(f) => r matches Err(e) && is_missing(e, name, f),
        None => if !op.available() {
            r matches Err(e) && is_not_implemented(e, name, op.wording().fixed@)
        } else if op == MemoryOperation::UpdateBlock && !request.has_changes() {
            r matches Err(e) && is_missing(e, name, Field::Value)
        } else {
            match first_malformed(op.identifiers(), request) {
                Some(f) => r matches Err(e) && is_invalid_identifier(
                    e,
                    name,
                    f,
                    request.raw_identifier(f)->0,
                ),
                None => r matches Ok(Step::Call { call, pending }) && is_memory_call(
                    request,
                    call,
                ) && pending == memory_pending_for(request),
            }
        },
    }
}

fn step(call: MemoryCall, pending: MemoryPending) -> (s: MemoryStep)
    ensures
        s matches Step::Call { call: c, pending: p } && c == call && p == pending,
{
    Step::Call { call, pending }
}

/// Validates a request and names its backend call.
pub fn handle_memory_unified(request: MemoryUnifiedRequest) -> (r: Result<MemoryStep, RouterError>)
    ensures
        memory_dispatch_post(request, r),
{
    let op = request.operation;
    let words = op.wording();
    let name = words.operation;
    proof {
        reveal_with_fuel(first_missing_from, 4);
        reveal_with_fuel(first_malformed_from, 3);
    }
    let blank = MemoryPending {
        operation: op,
        agent_id: None,
        block_id: None,
        passage_id: None,
        block_label: None,
    };
    match op {
        MemoryOperation::ListAgentsUsingBlock | MemoryOperation::UpdatePassage => Err(
            not_implemented(name, words.fixed),
        ),
        MemoryOperation::GetCoreMemory => {
            let agent = identify(&request.agent_id, name, Field::AgentId)?;
            Ok(
                step(
                    MemoryCall::GetCoreMemory { agent },
                    MemoryPending { agent_id: request.agent_id, ..blank },
                ),
            )
        },
        MemoryOperation::ListBlocks => {
            let agent = identify(&request.agent_id, name, Field::AgentId)?;
            Ok(
                step(
                    MemoryCall::ListCoreMemoryBlocks { agent },
                    MemoryPending { agent_id: request.agent_id, ..blank },
                ),
            )
        },
        MemoryOperation::UpdateCoreMemory => {
            require_present(&request.agent_id, name, Field::AgentId)?;
            require_present(&request.block_label, name, Field::BlockLabel)?;
            let value = require(request.value, name, Field::Value)?;
            let agent = identify(&request.agent_id, name, Field::AgentId)?;
            let label = require(request.block_label, name, Field::BlockLabel)?;
            Ok(
                step(
                    MemoryCall::UpdateCoreMemoryBlock { agent, label: label.clone(), value },
                    MemoryPending {
                        agent_id: request.agent_id,
                        block_label: Some(label),
                        ..blank
                    },
                ),
            )
        },
        MemoryOperation::GetBlockByLabel => {
            require_present(&request.agent_id, name, Field::AgentId)?;
            require_present(&request.block_label, name, Field::BlockLabel)?;
            let agent = identify(&request.agent_id, name, Field::AgentId)?;
            let label = require(request.block_label, name, Field::BlockLabel)?;
            Ok(
                step(
                    MemoryCall::GetCoreMemoryBlock { agent, label: label.clone() },
                    MemoryPending {
                        agent_id: request.agent_id,
                        block_label: Some(label),
                        ..blank
                    },
                ),
            )
        },
        MemoryOperation::CreateBlock => {
            require_present(&request.label, name, Field::Label)?;
            let value = require(request.value, name, Field::Value)?;
            let label = require(request.label, name, Field::Label)?;
            Ok(
                step(
                    MemoryCall::CreateBlock { label, value, is_template: request.is_template },
                    blank,
                ),
            )
        },
        MemoryOperation::GetBlock => {
            let block = identify(&request.block_id, name, Field::BlockId)?;
            Ok(
                step(
                    MemoryCall::GetBlock { block },
                    MemoryPending { block_id: request.block_id, ..blank },
                ),
            )
        },
        MemoryOperation::UpdateBlock => {
            require_present(&request.block_id, name, Field::BlockId)?;
            if request.value.is_none() && request.label.is_none() && request.is_template.is_none() {
                return Err(missing(name, Field::Value));
            }
            let block = identify(&request.block_id, name, Field::BlockId)?;
            Ok(
                step(
                    MemoryCall::UpdateBlock {
                        block,
                        value: request.value,
                        label: request.label,
                        is_template: request.is_template,
                    },
                    MemoryPending { block_id: request.block_id, ..blank },
                ),
            )
        },
        MemoryOperation::AttachBlock | MemoryOperation::DetachBlock => {
            require_present(&request.agent_id, name, Field::AgentId)?;
            require_present(&request.block_id, name, Field::BlockId)?;
            let agent = identify(&request.agent_id, name, Field::AgentId)?;
            let block = identify(&request.block_id, name, Field::BlockId)?;
            let call = match op {
                MemoryOperation::AttachBlock => MemoryCall::AttachBlock { agent, block },
                _ => MemoryCall::DetachBlock { agent, block },
            };
            Ok(
                step(
                    call,
                    MemoryPending {
                        agent_id: request.agent_id,
                        block_id: request.block_id,
                        ..blank
                    },
                ),
            )
        },
        MemoryOperation::SearchArchival => {
            require_present(&request.agent_id, name, Field::AgentId)?;
            require_present(&request.query, name, Field::Query)?;
            let agent = identify(&request.agent_id, name, Field::AgentId)?;
            Ok(
                step(
                    MemoryCall::ListArchival {
                        agent,
                        search: request.query,
                        limit: page_limit(request.limit),
                    },
                    MemoryPending { agent_id: request.agent_id, ..blank },
                ),
            )
        },
        MemoryOperation::ListPassages => {
            let agent = identify(&request.agent_id, name, Field::AgentId)?;
            Ok(
                step(
                    MemoryCall::ListArchival {
                        agent,
                        search: None,
                        limit: page_limit(request.limit),
                    },
                    MemoryPending { agent_id: request.agent_id, ..blank },
                ),
            )
        },
        MemoryOperation::CreatePassage => {
            require_present(&request.agent_id, name, Field::AgentId)?;
            let text = require(request.text, name, Field::Text)?;
            let agent = identify(&request.agent_id, name, Field::AgentId)?;
            Ok(
                step(
                    MemoryCall::CreateArchival { agent, text },
                    MemoryPending { agent_id: request.agent_id, ..blank },
                ),
            )
        },
        MemoryOperation::DeletePassage => {
            require_present(&request.agent_id, name, Field::AgentId)?;
            require_present(&request.passage_id, name, Field::PassageId)?;
            let agent = identify(&request.agent_id, name, Field::AgentId)?;
            let passage = identify(&request.passage_id, name, Field::PassageId)?;
            Ok(
                step(
                    MemoryCall::DeleteArchival { agent, passage },
                    MemoryPending {
                        agent_id: request.agent_id,
                        passage_id: request.passage_id,
                        ..blank
                    },
                ),
            )
        },
    }
}

/// An envelope with the operation-specific parts left out.
pub open spec fn bare_memory_envelope(
    pending: MemoryPending,
    response: MemoryUnifiedResponse,
) -> MemoryUnifiedResponse {
    MemoryUnifiedResponse {
        success: true,
        operation: response.operation,
        message: response.message,
        agent_id: pending.agent_id,
        block_id: pending.block_id,
        passage_id: pending.passage_id,
        data: None,
        blocks: None,
        passages: None,
        core_memory: None,
        count: None,
    }
}

/// Whether the operation can use a reply of this shape.
pub open spec fn memory_fits(operation: MemoryOperation, reply: Reply) -> bool {
    match operation {
        MemoryOperation::ListBlocks | MemoryOperation::SearchArchival
        | MemoryOperation::ListPassages | MemoryOperation::CreatePassage => reply is Entities,
        MemoryOperation::CreateBlock => reply is Block,
        MemoryOperation::DeletePassage => true,
        MemoryOperation::ListAgentsUsingBlock | MemoryOperation::UpdatePassage => false,
        _ => reply is Entity,
    }
}

/// Whether `response` is the envelope that `pending`'s operation makes of a
/// `reply` that it can use.
pub open spec fn memory_envelope(
    pending: MemoryPending,
    reply: Reply,
    response: MemoryUnifiedResponse,
) -> bool {
    let words = pending.operation.wording();
    let bare = bare_memory_envelope(pending, response);
    let named = response.operation@ == words.operation@;
    let fixed = response.message@ == words.fixed@;
    match pending.operation {
        MemoryOperation::GetCoreMemory => match reply {
            Reply::Entity(entity) => (
                named && fixed && response == (MemoryUnifiedResponse {
                    core_memory: Some(entity),
                    ..bare
                })
            ),
            _ => false,
        },
        MemoryOperation::UpdateCoreMemory | MemoryOperation::GetBlockByLabel => match reply {
            Reply::Entity(entity) => (
                named && response.message@ == words.before@ + text_or_empty(pending.block_label)
                    + words.after@ && response == (MemoryUnifiedResponse {
                    data: Some(entity),
                    ..bare
                })
            ),
            _ => false,
        },
        MemoryOperation::ListBlocks => match reply {
            Reply::Entities(items) => (
                named && response.message@ == words.before@ + decimal(items@.len()) + words.after@
                    && response == (MemoryUnifiedResponse {
                    blocks: Some(Json::Array(items)),
                    count: Some(items@.len() as usize),
                    ..bare
                })
            ),
            _ => false,
        },
        MemoryOperation::CreateBlock => match reply {
            Reply::Block { id, entity } => (
                named && fixed && response == (MemoryUnifiedResponse {
                    block_id: id,
                    data: Some(entity),
                    ..bare
                })
            ),
            _ => false,
        },
        MemoryOperation::GetBlock | MemoryOperation::UpdateBlock | MemoryOperation::AttachBlock
        | MemoryOperation::DetachBlock => match reply {
            Reply::Entity(entity) => (
                named && fixed && response == (MemoryUnifiedResponse {
                    data: Some(entity),
                    ..bare
                })
            ),
            _ => false,
        },
        MemoryOperation::SearchArchival | MemoryOperation::ListPassages => match reply {
            Reply::Entities(items) => (
                named && response.message@ == words.before@ + decimal(items@.len()) + words.after@
                    && response == (MemoryUnifiedResponse {
                    passages: Some(Json::Array(items)),
                    count: Some(items@.len() as usize),
                    ..bare
                })
            ),
            _ => false,
        },
        MemoryOperation::CreatePassage => match reply {
            Reply::Entities(items) => (
                named && fixed && response == (MemoryUnifiedResponse {
                    passages: Some(Json::Array(items)),
                    ..bare
                })
            ),
            _ => false,
        },
        MemoryOperation::DeletePassage => named && fixed && response == bare,
        _ => false,
    }
}

/// The identifiers and names that `pending`'s call was made on, as the
/// caller wrote them.
pub open spec fn memory_subject(pending: MemoryPending) -> Seq<char> {
    with_name(with_name(with_name(seq![], pending.agent_id), pending.block_id), pending.passage_id)
}

/// Whether `r` is what the router owes when `pending` is resumed with
/// `reply`.
pub open spec fn memory_resume_post(
    pending: MemoryPending,
    reply: Result<Reply, BackendFailure>,
    r: Result<MemoryStep, RouterError>,
) -> bool {
    let words = pending.operation.wording();
    match reply {
        Err(failure) => r matches Err(e) && is_failure_error(
            e,
            words.operation@,
            words.context@,
            memory_subject(pending),
            failure,
        ),
        Ok(reply) => if memory_fits(pending.operation, reply) {
            r matches Ok(Step::Done(response)) && memory_envelope(pending, reply, response)
        } else {
            r matches Err(e) && is_unexpected_reply(e, words.operation@, words.context@)
        },
    }
}

fn bare(pending: MemoryPending, message: String) -> (response: MemoryUnifiedResponse)
    ensures
        response == bare_memory_envelope(pending, response),
        response.message == message,
        response.operation@ == pending.operation.name_spec(),
{
    MemoryUnifiedResponse {
        success: true,
        operation: String::from_str(pending.operation.name()),
        message,
        agent_id: pending.agent_id,
        block_id: pending.block_id,
        passage_id: pending.passage_id,
        data: None,
        blocks: None,
        passages: None,
        core_memory: None,
        count: None,
    }
}

/// Folds the backend's reply into the envelope.
pub fn resume_memory_unified(
    pending: MemoryPending,
    reply: Result<Reply, BackendFailure>,
) -> (r: Result<MemoryStep, RouterError>)
    ensures
        memory_resume_post(pending, reply, r),
{
    let words = pending.operation.wording();
    let reply = match reply {
        Ok(reply) => reply,
        Err(failure) => {
            let subject = add_name(add_name(add_name(String::new(), &pending.agent_id), &pending.block_id), &pending.passage_id);
            return Err(failure_error(words.operation, words.context, subject.as_str(), &failure));
        },
    };
    match (pending.operation, reply) {
        (MemoryOperation::GetCoreMemory, Reply::Entity(entity)) => {
            let mut response = bare(pending, String::from_str(words.fixed));
            response.core_memory = Some(entity);
            Ok(Step::Done(response))
        },
        (MemoryOperation::UpdateCoreMemory, Reply::Entity(entity))
        | (MemoryOperation::GetBlockByLabel, Reply::Entity(entity)) => {
            let message = join3(words.before, optional_text(&pending.block_label), words.after);
            let mut response = bare(pending, message);
            response.data = Some(entity);
            Ok(Step::Done(response))
        },
        (MemoryOperation::ListBlocks, Reply::Entities(items)) => {
            let n = items.len();
            let mut response = bare(pending, counted(words.before, n as u64, words.after));
            response.blocks = Some(Json::array(items));
            response.count = Some(n);
            Ok(Step::Done(response))
        },
        (MemoryOperation::CreateBlock, Reply::Block { id, entity }) => {
            let mut response = bare(pending, String::from_str(words.fixed));
            response.block_id = id;
            response.data = Some(entity);
            Ok(Step::Done(response))
        },
        (MemoryOperation::GetBlock, Reply::Entity(entity))
        | (MemoryOperation::UpdateBlock, Reply::Entity(entity))
        | (MemoryOperation::AttachBlock, Reply::Entity(entity))
        | (MemoryOperation::DetachBlock, Reply::Entity(entity)) => {
            let mut response = bare(pending, String::from_str(words.fixed));
            response.data = Some(entity);
            Ok(Step::Done(response))
        },
        (MemoryOperation::SearchArchival, Reply::Entities(items))
        | (MemoryOperation::ListPassages, Reply::Entities(items)) => {
            let n = items.len();
            let mut response = bare(pending, counted(words.before, n as u64, words.after));
            response.passages = Some(Json::array(items));
            response.count = Some(n);
            Ok(Step::Done(response))
        },
        (MemoryOperation::CreatePassage, Reply::Entities(items)) => {
            let mut response = bare(pending, String::from_str(words.fixed));
            response.passages = Some(Json::array(items));
            Ok(Step::Done(response))
        },
        (MemoryOperation::DeletePassage, _) => Ok(
            Step::Done(bare(pending, String::from_str(words.fixed))),
        ),
        _ => Err(unexpected_reply(words.operation, words.context)),
    }
}

impl MemoryOperation {
    /// The operation that `raw` names.
    pub open spec fn named(raw: Seq<char>) -> Option<MemoryOperation> {
        if raw == "get_core_memory"@ {
            Some(MemoryOperation::GetCoreMemory)
        } else if raw == "update_core_memory"@ {
            Some(MemoryOperation::UpdateCoreMemory)
        } else if raw == "get_block_by_label"@ {
            Some(MemoryOperation::GetBlockByLabel)
        } else if raw == "list_blocks"@ {
            Some(MemoryOperation::ListBlocks)
        } else if raw == "create_block"@ {
            Some(MemoryOperation::CreateBlock)
        } else if raw == "get_block"@ {
            Some(MemoryOperation::GetBlock)
        } else if raw == "update_block"@ {
            Some(MemoryOperation::UpdateBlock)
        } else if raw == "attach_block"@ {
            Some(MemoryOperation::AttachBlock)
        } else if raw == "detach_block"@ {
            Some(MemoryOperation::DetachBlock)
        } else if raw == "list_agents_using_block"@ {
            Some(MemoryOperation::ListAgentsUsingBlock)
        } else if raw == "search_archival"@ {
            Some(MemoryOperation::SearchArchival)
        } else if raw == "list_passages"@ {
            Some(MemoryOperation::ListPassages)
        } else if raw == "create_passage"@ {
            Some(MemoryOperation::CreatePassage)
        } else if raw == "update_passage"@ {
            Some(MemoryOperation::UpdatePassage)
        } else if raw == "delete_passage"@ {
            Some(MemoryOperation::DeletePassage)
        } else {
            None
        }
    }

    /// Reads the operation that a request names.
    pub fn parse(raw: &str) -> (r: Result<MemoryOperation, RouterError>)
        ensures
            match MemoryOperation::named(raw@) {
                Some(op) => r == Ok::<MemoryOperation, RouterError>(op),
                None => r matches Err(RouterError::UnknownOperation { raw: t }) && t@ == raw@,
            },
    {
        if same_text(raw, "get_core_memory") {
            Ok(MemoryOperation::GetCoreMemory)
        } else if same_text(raw, "update_core_memory") {
            Ok(MemoryOperation::UpdateCoreMemory)
        } else if same_text(raw, "get_block_by_label") {
            Ok(MemoryOperation::GetBlockByLabel)
        } else if same_text(raw, "list_blocks") {
            Ok(MemoryOperation::ListBlocks)
        } else if same_text(raw, "create_block") {
            Ok(MemoryOperation::CreateBlock)
        } else if same_text(raw, "get_block") {
            Ok(MemoryOperation::GetBlock)
        } else if same_text(raw, "update_block") {
            Ok(MemoryOperation::UpdateBlock)
        } else if same_text(raw, "attach_block") {
            Ok(MemoryOperation::AttachBlock)
        } else if same_text(raw, "detach_block") {
            Ok(MemoryOperation::DetachBlock)
        } else if same_text(raw, "list_agents_using_block") {
            Ok(MemoryOperation::ListAgentsUsingBlock)
        } else if same_text(raw, "search_archival") {
            Ok(MemoryOperation::SearchArchival)
        } else if same_text(raw, "list_passages") {
            Ok(MemoryOperation::ListPassages)
        } else if same_text(raw, "create_passage") {
            Ok(MemoryOperation::CreatePassage)
        } else if same_text(raw, "update_passage") {
            Ok(MemoryOperation::UpdatePassage)
        } else if same_text(raw, "delete_passage") {
            Ok(MemoryOperation::DeletePassage)
        } else {
            Err(RouterError::UnknownOperation { raw: String::from_str(raw) })
        }
    }
}

/// Every memory operation is read back from its own name.
pub proof fn lemma_memory_name_reads_back(op: MemoryOperation)
    ensures
        MemoryOperation::named(op.name_spec()) == Some(op),
{
    reveal_strlit("get_core_memory");
    reveal_strlit("update_core_memory");
    reveal_strlit("get_block_by_label");
    reveal_strlit("list_blocks");
    reveal_strlit("create_block");
    reveal_strlit("get_block");
    reveal_strlit("update_block");
    reveal_strlit("attach_block");
    reveal_strlit("detach_block");
    reveal_strlit("list_agents_using_block");
    reveal_strlit("search_archival");
    reveal_strlit("list_passages");
    reveal_strlit("create_passage");
    reveal_strlit("update_passage");
    reveal_strlit("delete_passage");
    assert("get_core_memory"@.len() == 15);
    assert("update_core_memory"@.len() == 18);
    assert("get_block_by_label"@.len() == 18);
    assert("list_blocks"@.len() == 11);
    assert("create_block"@.len() == 12);
    assert("get_block"@.len() == 9);
    assert("update_block"@.len() == 12);
    assert("attach_block"@.len() == 12);
    assert("detach_block"@.len() == 12);
    assert("list_agents_using_block"@.len() == 23);
    assert("search_archival"@.len() == 15);
    assert("list_passages"@.len() == 13);
    assert("create_passage"@.len() == 14);
    assert("update_passage"@.len() == 14);
    assert("delete_passage"@.len() == 14);
    assert("get_block_by_label"@[0] == 'g');
    assert("update_core_memory"@[0] == 'u');
    assert("update_block"@[0] == 'u');
    assert("create_block"@[0] == 'c');
    assert("attach_block"@[0] == 'a');
    assert("detach_block"@[0] == 'd');
    assert("search_archival"@[0] == 's');
    assert("get_core_memory"@[0] == 'g');
    assert("update_passage"@[0] == 'u');
    assert("create_passage"@[0] == 'c');
    assert("delete_passage"@[0] == 'd');
}

/// No two memory operations share a name.
pub proof fn lemma_memory_names_differ(a: MemoryOperation, b: MemoryOperation)
    requires
        a.name_spec() == b.name_spec(),
    ensures
        a == b,
{
    lemma_memory_name_reads_back(a);
    lemma_memory_name_reads_back(b);
}

/// A request that lacks a field its operation requires is refused as
/// missing a field, and no backend call is asked for: the field reported is
/// required and absent, and it is the lacking field itself where every
/// field required before it is there.
pub proof fn lemma_memory_missing_field_is_refused(
    request: MemoryUnifiedRequest,
    at: int,
    r: Result<MemoryStep, RouterError>,
)
    requires
        memory_dispatch_post(request, r),
        0 <= at < request.operation.required().len(),
        !request.has_field(request.operation.required()[at]),
    ensures
        r is Err,
        r->Err_0 is MissingField,
        ({
            let field = r->Err_0->MissingField_field;
            &&& r->Err_0->MissingField_operation@ == request.operation.name_spec()
            &&& request.operation.required().contains(field)
            &&& !request.has_field(field)
            &&& (forall|j: int|
                0 <= j < at ==> request.has_field(#[trigger] request.operation.required()[j]))
                ==> field == request.operation.required()[at]
        }),
{
    lemma_missing_field_is_reported(request.operation.required(), request, at);
}

/// A request that holds everything its operation requires but a malformed
/// identifier is refused as holding an invalid identifier, and no backend
/// call is asked for: the field reported is malformed, its text is
/// reported with it, and it is the malformed field itself where no
/// identifier field before it is malformed.
pub proof fn lemma_memory_malformed_identifier_is_refused(
    request: MemoryUnifiedRequest,
    at: int,
    r: Result<MemoryStep, RouterError>,
)
    requires
        memory_dispatch_post(request, r),
        first_missing(request.operation.required(), request) is None,
        !(request.operation == MemoryOperation::UpdateBlock && !request.has_changes()),
        0 <= at < request.operation.identifiers().len(),
        malformed(request, request.operation.identifiers()[at]),
    ensures
        r is Err,
        r->Err_0 is InvalidIdentifier,
        ({
            let field = r->Err_0->InvalidIdentifier_field;
            &&& r->Err_0->InvalidIdentifier_operation@ == request.operation.name_spec()
            &&& malformed(request, field)
            &&& request.raw_identifier(field) == Some(r->Err_0->InvalidIdentifier_raw@)
            &&& (forall|j: int|
                0 <= j < at ==> !malformed(request, #[trigger] request.operation.identifiers()[j]))
                ==> field == request.operation.identifiers()[at]
        }),
{
    lemma_malformed_identifier_is_reported(request.operation.identifiers(), request, at);
}

/// Dispatch reaches one handler, the operation's own: the step that a
/// request begins with belongs to the request's operation.
pub proof fn lemma_memory_dispatch_reaches_own_handler(
    request: MemoryUnifiedRequest,
    r: Result<MemoryStep, RouterError>,
)
    requires
        memory_dispatch_post(request, r),
        r is Ok,
    ensures
        r matches Ok(Step::Call { call, pending }) && pending.operation == request.operation,
{
}

/// Reading is repeatable: resuming the same operation with the same reply
/// yields envelopes that name the operation and agree in every field.
pub proof fn lemma_memory_reading_is_repeatable(
    pending: MemoryPending,
    reply: Result<Reply, BackendFailure>,
    a: Result<MemoryStep, RouterError>,
    b: Result<MemoryStep, RouterError>,
)
    requires
        memory_resume_post(pending, reply, a),
        memory_resume_post(pending, reply, b),
    ensures
        match (a, b) {
            (Ok(Step::Done(x)), Ok(Step::Done(y))) => x.operation@ == pending.operation.name_spec()
                && x.operation@ == y.operation@ && x.message@ == y.message@ && x == (MemoryUnifiedResponse {
                operation: x.operation,
                message: x.message,
                ..y
            }),
            (Err(e), Err(f)) => e.kind_spec() == f.kind_spec() && e.message_spec()
                == f.message_spec(),
            _ => false,
        },
{
}

/// What create and get return is the backend's block, unchanged: where the
/// backend answers a get with the block it answered the create with, both
/// envelopes carry that block.
pub proof fn lemma_memory_create_then_get(
    id: Option<String>,
    entity: Json,
    created: Result<MemoryStep, RouterError>,
    pending: MemoryPending,
    read: Result<MemoryStep, RouterError>,
)
    requires
        memory_resume_post(
            MemoryPending {
                operation: MemoryOperation::CreateBlock,
                agent_id: None,
                block_id: None,
                passage_id: None,
                block_label: None,
            },
            Ok(Reply::Block { id, entity }),
            created,
        ),
        pending.operation == MemoryOperation::GetBlock,
        memory_resume_post(pending, Ok(Reply::Entity(entity)), read),
    ensures
        created matches Ok(Step::Done(c)) && c.data == Some(entity) && c.block_id == id,
        read matches Ok(Step::Done(g)) && g.data == Some(entity) && g.block_id == pending.block_id,
{
}

/// Every envelope of this router reports success: a failure is an error,
/// never an envelope.
pub proof fn lemma_memory_envelopes_report_success(
    pending: MemoryPending,
    reply: Result<Reply, BackendFailure>,
    r: Result<MemoryStep, RouterError>,
)
    requires
        memory_resume_post(pending, reply, r),
    ensures
        r matches Ok(Step::Done(response)) ==> response.success,
{
}

} // verus!
