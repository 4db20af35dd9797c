use vstd::prelude::*;

verus! {

/// Which parts of a `tools/call` result a tool session fills in.
#[derive(Clone, Copy, Debug, PartialEq, Eq, Structural)]
pub enum ToolResponseFormat {
    /// Both the text content blocks and the structured content.
    Dual,
    /// Only the structured content.
    StructuredOnly,
    /// Only the text content blocks.
    ContentOnly,
}

impl ToolResponseFormat {
    /// Whether results in this format carry the text as a content block.
    pub open spec fn spec_includes_text_content(self) -> bool {
        !(self is StructuredOnly)
    }

    /// Whether results in this format carry the structured content.
    pub open spec fn spec_includes_structured_content(self) -> bool {
        !(self is ContentOnly)
    }

    #[verifier::when_used_as_spec(spec_includes_text_content)]
    pub fn includes_text_content(self) -> (res: bool)
        ensures
            res == self.spec_includes_text_content(),
    {
        !matches!(self, Self::StructuredOnly)
    }

    #[verifier::when_used_as_spec(spec_includes_structured_content)]
    pub fn includes_structured_content(self) -> (res: bool)
        ensures
            res == self.spec_includes_structured_content(),
    {
        !matches!(self, Self::ContentOnly)
    }
}

impl Default for ToolResponseFormat {
    /// The default format carries both parts.
    fn default() -> (res: Self)
        ensures
            res == ToolResponseFormat::Dual,
    {
        ToolResponseFormat::Dual
    }
}

/// Every format carries the text in at least one of the two parts.
pub proof fn law_every_format_carries_the_text(format: ToolResponseFormat)
    ensures
        format.includes_text_content() || format.includes_structured_content(),
{
}

} // verus!
