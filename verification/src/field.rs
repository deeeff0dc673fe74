//! The request fields that operations may require.

use vstd::prelude::*;

verus! {

/// A field of some router's request, named as callers write it.
#[derive(Clone, Copy, Debug, PartialEq, Eq, Structural)]
pub enum Field {
    AgentId,
    AgentIds,
    Args,
    BlockId,
    BlockLabel,
    Description,
    EmbeddingConfig,
    FileData,
    FileId,
    FileName,
    Filters,
    FolderId,
    JobId,
    Label,
    LlmConfig,
    Messages,
    Name,
    PassageId,
    Query,
    ServerConfig,
    ServerName,
    SourceCode,
    SourceId,
    Text,
    ToolId,
    ToolIds,
    ToolName,
    Value,
}

impl Field {
    /// The field's name on the wire.
    pub open spec fn name_spec(self) -> Seq<char> {
        match self {
            Field::AgentId => "agent_id"@,
            Field::AgentIds => "agent_ids"@,
            Field::Args => "args"@,
            Field::BlockId => "block_id"@,
            Field::BlockLabel => "block_label"@,
            Field::Description => "description"@,
            Field::EmbeddingConfig => "embedding_config"@,
            Field::FileData => "file_data"@,
            Field::FileId => "file_id"@,
            Field::FileName => "file_name"@,
            Field::Filters => "filters"@,
            Field::FolderId => "folder_id"@,
            Field::JobId => "job_id"@,
            Field::Label => "label"@,
            Field::LlmConfig => "llm_config"@,
            Field::Messages => "messages"@,
            Field::Name => "name"@,
            Field::PassageId => "passage_id"@,
            Field::Query => "query"@,
            Field::ServerConfig => "server_config"@,
            Field::ServerName => "server_name"@,
            Field::SourceCode => "source_code"@,
            Field::SourceId => "source_id"@,
            Field::Text => "text"@,
            Field::ToolId => "tool_id"@,
            Field::ToolIds => "tool_ids"@,
            Field::ToolName => "tool_name"@,
            Field::Value => "value"@,
        }
    }

    /// The field's name on the wire.
    pub fn name(self) -> (s: &'static str)
        ensures
            s@ == self.name_spec(),
    {
        match self {
            Field::AgentId => "agent_id",
            Field::AgentIds => "agent_ids",
            Field::Args => "args",
            Field::BlockId => "block_id",
            Field::BlockLabel => "block_label",
            Field::Description => "description",
            Field::EmbeddingConfig => "embedding_config",
            Field::FileData => "file_data",
            Field::FileId => "file_id",
            Field::FileName => "file_name",
            Field::Filters => "filters",
            Field::FolderId => "folder_id",
            Field::JobId => "job_id",
            Field::Label => "label",
            Field::LlmConfig => "llm_config",
            Field::Messages => "messages",
            Field::Name => "name",
            Field::PassageId => "passage_id",
            Field::Query => "query",
            Field::ServerConfig => "server_config",
            Field::ServerName => "server_name",
            Field::SourceCode => "source_code",
            Field::SourceId => "source_id",
            Field::Text => "text",
            Field::ToolId => "tool_id",
            Field::ToolIds => "tool_ids",
            Field::ToolName => "tool_name",
            Field::Value => "value",
        }
    }
}

} // verus!
