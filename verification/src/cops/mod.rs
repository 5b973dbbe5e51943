//! All cop implementations organized by category.

pub mod bundler_gemspec;
pub mod layout;
pub mod layout_extra;
pub mod lint;
pub mod lint_extra;
pub mod metrics;
pub mod naming;
pub mod naming_extra;
pub mod style;
pub mod style_extra1;

use vstd::prelude::*;

use crate::cop::{Category, Cop, Severity, cop_at};

verus! {

/// The layout, style, lint and naming cops that open `all_cops`, in order,
/// each by name, category and severity.
pub open spec fn core_cops(cops: Seq<Box<dyn Cop>>) -> bool {
    &&& cops.len() == 111
    &&& cop_at(cops, 0, "Layout/TrailingWhitespace"@, Category::Layout, Severity::Convention)
    &&& cop_at(cops, 1, "Layout/TrailingEmptyLines"@, Category::Layout, Severity::Convention)
    &&& cop_at(cops, 2, "Layout/LeadingEmptyLines"@, Category::Layout, Severity::Convention)
    &&& cop_at(cops, 3, "Layout/EndOfLine"@, Category::Layout, Severity::Convention)
    &&& cop_at(cops, 4, "Layout/IndentationStyle"@, Category::Layout, Severity::Convention)
    &&& cop_at(cops, 5, "Layout/IndentationWidth"@, Category::Layout, Severity::Convention)
    &&& cop_at(cops, 6, "Layout/SpaceAfterComma"@, Category::Layout, Severity::Convention)
    &&& cop_at(cops, 7, "Layout/SpaceAroundOperators"@, Category::Layout, Severity::Convention)
    &&& cop_at(cops, 8, "Layout/EmptyLineBetweenDefs"@, Category::Layout, Severity::Convention)
    &&& cop_at(cops, 9, "Layout/SpaceInsideParens"@, Category::Layout, Severity::Convention)
    &&& cop_at(cops, 10, "Layout/LineLength"@, Category::Layout, Severity::Convention)
    &&& cop_at(cops, 11, "Layout/EmptyComment"@, Category::Layout, Severity::Convention)
    &&& cop_at(cops, 12, "Layout/EmptyLines"@, Category::Layout, Severity::Convention)
    &&& cop_at(cops, 13, "Layout/LeadingCommentSpace"@, Category::Layout, Severity::Convention)
    &&& cop_at(cops, 14, "Layout/ExtraSpacing"@, Category::Layout, Severity::Convention)
    &&& cop_at(cops, 15, "Layout/SpaceAfterColon"@, Category::Layout, Severity::Convention)
    &&& cop_at(cops, 16, "Layout/SpaceAfterMethodName"@, Category::Layout, Severity::Convention)
    &&& cop_at(cops, 17, "Layout/SpaceAfterNot"@, Category::Layout, Severity::Convention)
    &&& cop_at(cops, 18, "Layout/SpaceAfterSemicolon"@, Category::Layout, Severity::Convention)
    &&& cop_at(cops, 19, "Layout/SpaceBeforeComma"@, Category::Layout, Severity::Convention)
    &&& cop_at(cops, 20, "Layout/SpaceBeforeComment"@, Category::Layout, Severity::Convention)
    &&& cop_at(cops, 21, "Layout/SpaceBeforeSemicolon"@, Category::Layout, Severity::Convention)
    &&& cop_at(cops, 22, "Layout/SpaceInsideArrayLiteralBrackets"@, Category::Layout, Severity::Convention)
    &&& cop_at(cops, 23, "Layout/SpaceInsideHashLiteralBraces"@, Category::Layout, Severity::Convention)
    &&& cop_at(cops, 24, "Layout/SpaceInsideRangeLiteral"@, Category::Layout, Severity::Convention)
    &&& cop_at(cops, 25, "Layout/SpaceInsideReferenceBrackets"@, Category::Layout, Severity::Convention)
    &&& cop_at(cops, 26, "Layout/SpaceInsideStringInterpolation"@, Category::Layout, Severity::Convention)
    &&& cop_at(cops, 27, "Layout/SpaceAroundEqualsInParameterDefault"@, Category::Layout, Severity::Convention)
    &&& cop_at(cops, 28, "Layout/SpaceAroundKeyword"@, Category::Layout, Severity::Convention)
    &&& cop_at(cops, 29, "Layout/SpaceBeforeBlockBraces"@, Category::Layout, Severity::Convention)
    &&& cop_at(cops, 30, "Layout/SpaceInsideBlockBraces"@, Category::Layout, Severity::Convention)
    &&& cop_at(cops, 31, "Layout/SpaceBeforeFirstArg"@, Category::Layout, Severity::Convention)
    &&& cop_at(cops, 32, "Layout/SpaceBeforeBrackets"@, Category::Layout, Severity::Convention)
    &&& cop_at(cops, 33, "Layout/SpaceInLambdaLiteral"@, Category::Layout, Severity::Convention)
    &&& cop_at(cops, 34, "Layout/InitialIndentation"@, Category::Layout, Severity::Convention)
    &&& cop_at(cops, 35, "Layout/CommentIndentation"@, Category::Layout, Severity::Convention)
    &&& cop_at(cops, 36, "Layout/IndentationConsistency"@, Category::Layout, Severity::Convention)
    &&& cop_at(cops, 37, "Layout/DotPosition"@, Category::Layout, Severity::Convention)
    &&& cop_at(cops, 38, "Layout/ConditionPosition"@, Category::Layout, Severity::Convention)
    &&& cop_at(cops, 39, "Layout/EmptyLineAfterMagicComment"@, Category::Layout, Severity::Convention)
    &&& cop_at(cops, 40, "Layout/EmptyLineAfterGuardClause"@, Category::Layout, Severity::Convention)
    &&& cop_at(cops, 41, "Layout/EmptyLinesAroundClassBody"@, Category::Layout, Severity::Convention)
    &&& cop_at(cops, 42, "Layout/EmptyLinesAroundModuleBody"@, Category::Layout, Severity::Convention)
    &&& cop_at(cops, 43, "Layout/EmptyLinesAroundMethodBody"@, Category::Layout, Severity::Convention)
    &&& cop_at(cops, 44, "Layout/EmptyLinesAroundBlockBody"@, Category::Layout, Severity::Convention)
    &&& cop_at(cops, 45, "Layout/EmptyLinesAroundAccessModifier"@, Category::Layout, Severity::Convention)
    &&& cop_at(cops, 46, "Layout/SingleLineBlockChain"@, Category::Layout, Severity::Convention)
    &&& cop_at(cops, 47, "Layout/BlockEndNewline"@, Category::Layout, Severity::Convention)
    &&& cop_at(cops, 48, "Layout/CaseIndentation"@, Category::Layout, Severity::Convention)
    &&& cop_at(cops, 49, "Layout/EndAlignment"@, Category::Layout, Severity::Convention)
    &&& cop_at(cops, 50, "Layout/DefEndAlignment"@, Category::Layout, Severity::Convention)
    &&& cop_at(cops, 51, "Layout/ElseAlignment"@, Category::Layout, Severity::Convention)
    &&& cop_at(cops, 52, "Layout/RescueEnsureAlignment"@, Category::Layout, Severity::Convention)
    &&& cop_at(cops, 53, "Layout/AccessModifierIndentation"@, Category::Layout, Severity::Convention)
    &&& cop_at(cops, 54, "Layout/ClosingParenthesisIndentation"@, Category::Layout, Severity::Convention)
    &&& cop_at(cops, 55, "Layout/MultilineMethodCallIndentation"@, Category::Layout, Severity::Convention)
    &&& cop_at(cops, 56, "Layout/MultilineOperationIndentation"@, Category::Layout, Severity::Convention)
    &&& cop_at(cops, 57, "Layout/ArgumentAlignment"@, Category::Layout, Severity::Convention)
    &&& cop_at(cops, 58, "Layout/ArrayAlignment"@, Category::Layout, Severity::Convention)
    &&& cop_at(cops, 59, "Layout/HashAlignment"@, Category::Layout, Severity::Convention)
    &&& cop_at(cops, 60, "Layout/ParameterAlignment"@, Category::Layout, Severity::Convention)
    &&& cop_at(cops, 61, "Layout/AssignmentIndentation"@, Category::Layout, Severity::Convention)
    &&& cop_at(cops, 62, "Layout/FirstArgumentIndentation"@, Category::Layout, Severity::Convention)
    &&& cop_at(cops, 63, "Layout/FirstArrayElementIndentation"@, Category::Layout, Severity::Convention)
    &&& cop_at(cops, 64, "Layout/FirstHashElementIndentation"@, Category::Layout, Severity::Convention)
    &&& cop_at(cops, 65, "Layout/HeredocIndentation"@, Category::Layout, Severity::Convention)
    &&& cop_at(cops, 66, "Layout/LineContinuationSpacing"@, Category::Layout, Severity::Convention)
    &&& cop_at(cops, 67, "Layout/LineContinuationLeadingSpace"@, Category::Layout, Severity::Convention)
    &&& cop_at(cops, 68, "Layout/MultilineArrayBraceLayout"@, Category::Layout, Severity::Convention)
    &&& cop_at(cops, 69, "Layout/MultilineHashBraceLayout"@, Category::Layout, Severity::Convention)
    &&& cop_at(cops, 70, "Layout/MultilineBlockLayout"@, Category::Layout, Severity::Convention)
    &&& cop_at(cops, 71, "Layout/MultilineMethodCallBraceLayout"@, Category::Layout, Severity::Convention)
    &&& cop_at(cops, 72, "Layout/MultilineArrayLineBreaks"@, Category::Layout, Severity::Convention)
    &&& cop_at(cops, 73, "Layout/MultilineHashKeyLineBreaks"@, Category::Layout, Severity::Convention)
    &&& cop_at(cops, 74, "Layout/MultilineMethodArgumentLineBreaks"@, Category::Layout, Severity::Convention)
    &&& cop_at(cops, 75, "Layout/MultilineMethodParameterLineBreaks"@, Category::Layout, Severity::Convention)
    &&& cop_at(cops, 76, "Layout/FirstMethodArgumentLineBreak"@, Category::Layout, Severity::Convention)
    &&& cop_at(cops, 77, "Layout/FirstMethodParameterLineBreak"@, Category::Layout, Severity::Convention)
    &&& cop_at(cops, 78, "Layout/FirstArrayElementLineBreak"@, Category::Layout, Severity::Convention)
    &&& cop_at(cops, 79, "Layout/FirstHashElementLineBreak"@, Category::Layout, Severity::Convention)
    &&& cop_at(cops, 80, "Layout/MultilineAssignmentLayout"@, Category::Layout, Severity::Convention)
    &&& cop_at(cops, 81, "Layout/MultilineMethodDefinitionBraceLayout"@, Category::Layout, Severity::Convention)
    &&& cop_at(cops, 82, "Layout/RedundantLineBreak"@, Category::Layout, Severity::Convention)
    &&& cop_at(cops, 83, "Layout/ClassStructure"@, Category::Layout, Severity::Convention)
    &&& cop_at(cops, 84, "Layout/LineEndStringConcatenationIndentation"@, Category::Layout, Severity::Convention)
    &&& cop_at(cops, 85, "Layout/ClosingHeredocIndentation"@, Category::Layout, Severity::Convention)
    &&& cop_at(cops, 86, "Layout/BeginEndAlignment"@, Category::Layout, Severity::Convention)
    &&& cop_at(cops, 87, "Layout/BlockAlignment"@, Category::Layout, Severity::Convention)
    &&& cop_at(cops, 88, "Layout/EmptyLineAfterMultilineCondition"@, Category::Layout, Severity::Convention)
    &&& cop_at(cops, 89, "Layout/EmptyLinesAfterModuleInclusion"@, Category::Layout, Severity::Convention)
    &&& cop_at(cops, 90, "Layout/EmptyLinesAroundAttributeAccessor"@, Category::Layout, Severity::Convention)
    &&& cop_at(cops, 91, "Layout/EmptyLinesAroundBeginBody"@, Category::Layout, Severity::Convention)
    &&& cop_at(cops, 92, "Layout/EmptyLinesAroundExceptionHandlingKeywords"@, Category::Layout, Severity::Convention)
    &&& cop_at(cops, 93, "Layout/EmptyLinesAroundArguments"@, Category::Layout, Severity::Convention)
    &&& cop_at(cops, 94, "Layout/SpaceAroundMethodCallOperator"@, Category::Layout, Severity::Convention)
    &&& cop_at(cops, 95, "Layout/SpaceInsideArrayPercentLiteral"@, Category::Layout, Severity::Convention)
    &&& cop_at(cops, 96, "Layout/SpaceInsidePercentLiteralDelimiters"@, Category::Layout, Severity::Convention)
    &&& cop_at(cops, 97, "Layout/HeredocArgumentClosingParenthesis"@, Category::Layout, Severity::Convention)
    &&& cop_at(cops, 98, "Layout/FirstParameterIndentation"@, Category::Layout, Severity::Convention)
    &&& cop_at(cops, 99, "Layout/ErrorA"@, Category::Layout, Severity::Convention)
    &&& cop_at(cops, 100, "Style/FrozenStringLiteralComment"@, Category::Style, Severity::Convention)
    &&& cop_at(cops, 101, "Style/StringLiterals"@, Category::Style, Severity::Convention)
    &&& cop_at(cops, 102, "Style/NegatedIf"@, Category::Style, Severity::Convention)
    &&& cop_at(cops, 103, "Style/RedundantReturn"@, Category::Style, Severity::Convention)
    &&& cop_at(cops, 104, "Style/EmptyMethod"@, Category::Style, Severity::Convention)
    &&& cop_at(cops, 105, "Lint/Debugger"@, Category::Lint, Severity::Warning)
    &&& cop_at(cops, 106, "Lint/LiteralInCondition"@, Category::Lint, Severity::Warning)
    &&& cop_at(cops, 107, "Lint/DuplicateMethods"@, Category::Lint, Severity::Warning)
    &&& cop_at(cops, 108, "Naming/MethodName"@, Category::Naming, Severity::Convention)
    &&& cop_at(cops, 109, "Naming/VariableName"@, Category::Naming, Severity::Convention)
    &&& cop_at(cops, 110, "Naming/ConstantName"@, Category::Naming, Severity::Convention)
}

/// The layout, style, lint and naming cops that open `all_cops`.
fn core_cops_list() -> (r: Vec<Box<dyn Cop>>)
    ensures
        core_cops(r@),
{
    let cops: Vec<Box<dyn Cop>> = vec![
        Box::new(layout::TrailingWhitespace),
        Box::new(layout::TrailingEmptyLines),
        Box::new(layout::LeadingEmptyLines),
        Box::new(layout::EndOfLine),
        Box::new(layout::IndentationStyle),
        Box::new(layout::IndentationWidth),
        Box::new(layout::SpaceAfterComma),
        Box::new(layout::SpaceAroundOperators),
        Box::new(layout::EmptyLineBetweenDefs),
        Box::new(layout::SpaceInsideParens),
        Box::new(layout_extra::LineLength),
        Box::new(layout_extra::EmptyComment),
        Box::new(layout_extra::EmptyLines),
        Box::new(layout_extra::LeadingCommentSpace),
        Box::new(layout_extra::ExtraSpacing),
        Box::new(layout_extra::SpaceAfterColon),
        Box::new(layout_extra::SpaceAfterMethodName),
        Box::new(layout_extra::SpaceAfterNot),
        Box::new(layout_extra::SpaceAfterSemicolon),
        Box::new(layout_extra::SpaceBeforeComma),
        Box::new(layout_extra::SpaceBeforeComment),
        Box::new(layout_extra::SpaceBeforeSemicolon),
        Box::new(layout_extra::SpaceInsideArrayLiteralBrackets),
        Box::new(layout_extra::SpaceInsideHashLiteralBraces),
        Box::new(layout_extra::SpaceInsideRangeLiteral),
        Box::new(layout_extra::SpaceInsideReferenceBrackets),
        Box::new(layout_extra::SpaceInsideStringInterpolation),
        Box::new(layout_extra::SpaceAroundEqualsInParameterDefault),
        Box::new(layout_extra::SpaceAroundKeyword),
        Box::new(layout_extra::SpaceBeforeBlockBraces),
        Box::new(layout_extra::SpaceInsideBlockBraces),
        Box::new(layout_extra::SpaceBeforeFirstArg),
        Box::new(layout_extra::SpaceBeforeBrackets),
        Box::new(layout_extra::SpaceInLambdaLiteral),
        Box::new(layout_extra::InitialIndentation),
        Box::new(layout_extra::CommentIndentation),
        Box::new(layout_extra::IndentationConsistency),
        Box::new(layout_extra::DotPosition),
        Box::new(layout_extra::ConditionPosition),
        Box::new(layout_extra::EmptyLineAfterMagicComment),
        Box::new(layout_extra::EmptyLineAfterGuardClause),
        Box::new(layout_extra::EmptyLinesAroundClassBody),
        Box::new(layout_extra::EmptyLinesAroundModuleBody),
        Box::new(layout_extra::EmptyLinesAroundMethodBody),
        Box::new(layout_extra::EmptyLinesAroundBlockBody),
        Box::new(layout_extra::EmptyLinesAroundAccessModifier),
        Box::new(layout_extra::SingleLineBlockChain),
        Box::new(layout_extra::BlockEndNewline),
        Box::new(layout_extra::CaseIndentation),
        Box::new(layout_extra::EndAlignment),
        Box::new(layout_extra::DefEndAlignment),
        Box::new(layout_extra::ElseAlignment),
        Box::new(layout_extra::RescueEnsureAlignment),
        Box::new(layout_extra::AccessModifierIndentation),
        Box::new(layout_extra::ClosingParenthesisIndentation),
        Box::new(layout_extra::MultilineMethodCallIndentation),
        Box::new(layout_extra::MultilineOperationIndentation),
        Box::new(layout_extra::ArgumentAlignment),
        Box::new(layout_extra::ArrayAlignment),
        Box::new(layout_extra::HashAlignment),
        Box::new(layout_extra::ParameterAlignment),
        Box::new(layout_extra::AssignmentIndentation),
        Box::new(layout_extra::FirstArgumentIndentation),
        Box::new(layout_extra::FirstArrayElementIndentation),
        Box::new(layout_extra::FirstHashElementIndentation),
        Box::new(layout_extra::HeredocIndentation),
        Box::new(layout_extra::LineContinuationSpacing),
        Box::new(layout_extra::LineContinuationLeadingSpace),
        Box::new(layout_extra::MultilineArrayBraceLayout),
        Box::new(layout_extra::MultilineHashBraceLayout),
        Box::new(layout_extra::MultilineBlockLayout),
        Box::new(layout_extra::MultilineMethodCallBraceLayout),
        Box::new(layout_extra::MultilineArrayLineBreaks),
        Box::new(layout_extra::MultilineHashKeyLineBreaks),
        Box::new(layout_extra::MultilineMethodArgumentLineBreaks),
        Box::new(layout_extra::MultilineMethodParameterLineBreaks),
        Box::new(layout_extra::FirstMethodArgumentLineBreak),
        Box::new(layout_extra::FirstMethodParameterLineBreak),
        Box::new(layout_extra::FirstArrayElementLineBreak),
        Box::new(layout_extra::FirstHashElementLineBreak),
        Box::new(layout_extra::MultilineAssignmentLayout),
        Box::new(layout_extra::MultilineMethodDefinitionBraceLayout),
        Box::new(layout_extra::RedundantLineBreak),
        Box::new(layout_extra::ClassStructure),
        Box::new(layout_extra::LineEndStringConcatenationIndentation),
        Box::new(layout_extra::ClosingHeredocIndentation),
        Box::new(layout_extra::BeginEndAlignment),
        Box::new(layout_extra::BlockAlignment),
        Box::new(layout_extra::EmptyLineAfterMultilineCondition),
        Box::new(layout_extra::EmptyLinesAfterModuleInclusion),
        Box::new(layout_extra::EmptyLinesAroundAttributeAccessor),
        Box::new(layout_extra::EmptyLinesAroundBeginBody),
        Box::new(layout_extra::EmptyLinesAroundExceptionHandlingKeywords),
        Box::new(layout_extra::EmptyLinesAroundArguments),
        Box::new(layout_extra::SpaceAroundMethodCallOperator),
        Box::new(layout_extra::SpaceInsideArrayPercentLiteral),
        Box::new(layout_extra::SpaceInsidePercentLiteralDelimiters),
        Box::new(layout_extra::HeredocArgumentClosingParenthesis),
        Box::new(layout_extra::FirstParameterIndentation),
        Box::new(layout_extra::ErrorA),
        Box::new(style::FrozenStringLiteralComment),
        Box::new(style::StringLiterals),
        Box::new(style::NegatedIf),
        Box::new(style::RedundantReturn),
        Box::new(style::EmptyMethod),
        Box::new(lint::Debugger::new()),
        Box::new(lint::LiteralInCondition::new()),
        Box::new(lint::DuplicateMethods::new()),
        Box::new(naming::MethodName),
        Box::new(naming::VariableName),
        Box::new(naming::ConstantName),
    ];
    cops
}

/// Returns all implemented cops as trait objects: the layout, style, lint
/// and naming cops, then the extra style, lint and naming cops, then the
/// metrics and security cops.
pub fn all_cops() -> (r: Vec<Box<dyn Cop>>)
    ensures
        r@.len() == 388,
        core_cops(r@.subrange(0, 111)),
        style_extra1::style_extra1_cops(r@.subrange(111, 206)),
        lint_extra::lint_extra_cops(r@.subrange(206, 356)),
        naming_extra::naming_extra_cops(r@.subrange(356, 372)),
        metrics::metrics_cops(r@.subrange(372, 388)),
{
    let mut cops = core_cops_list();
    let ghost core = cops@;
    let mut more = style_extra1::all_style_extra1_cops();
    let ghost s1 = more@;
    cops.append(&mut more);
    let mut more = lint_extra::all_lint_extra_cops();
    let ghost s2 = more@;
    cops.append(&mut more);
    let mut more = naming_extra::all_naming_extra_cops();
    let ghost s3 = more@;
    cops.append(&mut more);
    let mut more = metrics::all_metrics_cops();
    let ghost s4 = more@;
    cops.append(&mut more);
    proof {
        assert(cops@ =~= core + s1 + s2 + s3 + s4);
        assert(cops@.subrange(0, 111) =~= core);
        assert(cops@.subrange(111, 206) =~= s1);
        assert(cops@.subrange(206, 356) =~= s2);
        assert(cops@.subrange(356, 372) =~= s3);
        assert(cops@.subrange(372, 388) =~= s4);
    }
    cops
}

} // verus!
