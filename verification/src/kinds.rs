//! The closed taxonomies of the native frontend: node kinds, type kinds and
//! the small classification enumerations, with their fixed debug labels and
//! the tables that read them off a raw enumerator code.
//!
//! The native enumerations are larger and evolve independently of these
//! tables: every enumerator a table does not name is carried as
//! `Other(code)` and labelled with the single unknown marker `"?"`.

use vstd::prelude::*;

verus! {

/// The kind tag of one AST node.
#[derive(Clone, Copy, Debug, PartialEq, Eq, Structural)]
pub enum CursorKind {
    UnexposedDecl,
    StructDecl,
    UnionDecl,
    ClassDecl,
    EnumDecl,
    FieldDecl,
    EnumConstantDecl,
    FunctionDecl,
    VarDecl,
    ParmDecl,
    ObjCInterfaceDecl,
    ObjCCategoryDecl,
    ObjCProtocolDecl,
    ObjCPropertyDecl,
    ObjCIvarDecl,
    ObjCInstanceMethodDecl,
    ObjCClassMethodDecl,
    ObjCImplementationDecl,
    ObjCCategoryImplDecl,
    TypedefDecl,
    CXXMethod,
    Namespace,
    LinkageSpec,
    Constructor,
    Destructor,
    ConversionFunction,
    TemplateTypeParameter,
    NonTypeTemplateParameter,
    TemplateTemplateParameter,
    FunctionTemplate,
    ClassTemplate,
    ClassTemplatePartialSpecialization,
    NamespaceAlias,
    UsingDirective,
    UsingDeclaration,
    TypeAliasDecl,
    ObjCSynthesizeDecl,
    ObjCDynamicDecl,
    CXXAccessSpecifier,
    ObjCProtocolRef,
    ObjCClassRef,
    TypeRef,
    CXXBaseSpecifier,
    TemplateRef,
    NamespaceRef,
    MemberRef,
    OverloadedDeclRef,
    VariableRef,
    InvalidFile,
    NoDeclFound,
    NotImplemented,
    InvalidCode,
    DeclRefExpr,
    MemberRefExpr,
    CallExpr,
    ObjCMessageExpr,
    BlockExpr,
    IntegerLiteral,
    FloatingLiteral,
    ImaginaryLiteral,
    StringLiteral,
    CharacterLiteral,
    ParenExpr,
    UnaryOperator,
    ArraySubscriptExpr,
    BinaryOperator,
    CompoundAssignOperator,
    ConditionalOperator,
    CStyleCastExpr,
    CompoundLiteralExpr,
    InitListExpr,
    AddrLabelExpr,
    StmtExpr,
    GenericSelectionExpr,
    GNUNullExpr,
    CXXStaticCastExpr,
    CXXDynamicCastExpr,
    CXXReinterpretCastExpr,
    CXXConstCastExpr,
    CXXFunctionalCastExpr,
    CXXTypeidExpr,
    CXXBoolLiteralExpr,
    CXXNullPtrLiteralExpr,
    CXXThisExpr,
    CXXThrowExpr,
    CXXNewExpr,
    CXXDeleteExpr,
    UnaryExpr,
    ObjCStringLiteral,
    ObjCEncodeExpr,
    ObjCSelectorExpr,
    ObjCProtocolExpr,
    ObjCBridgedCastExpr,
    PackExpansionExpr,
    SizeOfPackExpr,
    LambdaExpr,
    ObjCBoolLiteralExpr,
    LabelStmt,
    CompoundStmt,
    CaseStmt,
    DefaultStmt,
    IfStmt,
    SwitchStmt,
    WhileStmt,
    DoStmt,
    ForStmt,
    GotoStmt,
    IndirectGotoStmt,
    ContinueStmt,
    BreakStmt,
    ReturnStmt,
    AsmStmt,
    ObjCAtTryStmt,
    ObjCAtCatchStmt,
    ObjCAtFinallyStmt,
    ObjCAtThrowStmt,
    ObjCAtSynchronizedStmt,
    ObjCAutoreleasePoolStmt,
    ObjCForCollectionStmt,
    CXXCatchStmt,
    CXXTryStmt,
    CXXForRangeStmt,
    SEHTryStmt,
    SEHExceptStmt,
    SEHFinallyStmt,
    NullStmt,
    DeclStmt,
    TranslationUnit,
    IBActionAttr,
    IBOutletAttr,
    IBOutletCollectionAttr,
    CXXFinalAttr,
    CXXOverrideAttr,
    AnnotateAttr,
    AsmLabelAttr,
    PackedAttr,
    PreprocessingDirective,
    MacroDefinition,
    MacroExpansion,
    InclusionDirective,
    /// An enumerator of the native taxonomy that this table does not name.
    Other(u32),
}

/// The fixed debug label of each CursorKind; enumerators absent from the table map to "?".
pub open spec fn cursor_kind_label(k: CursorKind) -> Seq<char> {
    match k {
        CursorKind::UnexposedDecl => "UnexposedDecl"@,
        CursorKind::StructDecl => "StructDecl"@,
        CursorKind::UnionDecl => "UnionDecl"@,
        CursorKind::ClassDecl => "ClassDecl"@,
        CursorKind::EnumDecl => "EnumDecl"@,
        CursorKind::FieldDecl => "FieldDecl"@,
        CursorKind::EnumConstantDecl => "EnumConstantDecl"@,
        CursorKind::FunctionDecl => "FunctionDecl"@,
        CursorKind::VarDecl => "VarDecl"@,
        CursorKind::ParmDecl => "ParmDecl"@,
        CursorKind::ObjCInterfaceDecl => "ObjCInterfaceDecl"@,
        CursorKind::ObjCCategoryDecl => "ObjCCategoryDecl"@,
        CursorKind::ObjCProtocolDecl => "ObjCProtocolDecl"@,
        CursorKind::ObjCPropertyDecl => "ObjCPropertyDecl"@,
        CursorKind::ObjCIvarDecl => "ObjCIvarDecl"@,
        CursorKind::ObjCInstanceMethodDecl => "ObjCInstanceMethodDecl"@,
        CursorKind::ObjCClassMethodDecl => "ObjCClassMethodDecl"@,
        CursorKind::ObjCImplementationDecl => "ObjCImplementationDecl"@,
        CursorKind::ObjCCategoryImplDecl => "ObjCCategoryImplDecl"@,
        CursorKind::TypedefDecl => "TypedefDecl"@,
        CursorKind::CXXMethod => "CXXMethod"@,
        CursorKind::Namespace => "Namespace"@,
        CursorKind::LinkageSpec => "LinkageSpec"@,
        CursorKind::Constructor => "Constructor"@,
        CursorKind::Destructor => "Destructor"@,
        CursorKind::ConversionFunction => "ConversionFunction"@,
        CursorKind::TemplateTypeParameter => "TemplateTypeParameter"@,
        CursorKind::NonTypeTemplateParameter => "NonTypeTemplateParameter"@,
        CursorKind::TemplateTemplateParameter => "TemplateTemplateParameter"@,
        CursorKind::FunctionTemplate => "FunctionTemplate"@,
        CursorKind::ClassTemplate => "ClassTemplate"@,
        CursorKind::ClassTemplatePartialSpecialization => "ClassTemplatePartialSpecialization"@,
        CursorKind::NamespaceAlias => "NamespaceAlias"@,
        CursorKind::UsingDirective => "UsingDirective"@,
        CursorKind::UsingDeclaration => "UsingDeclaration"@,
        CursorKind::TypeAliasDecl => "TypeAliasDecl"@,
        CursorKind::ObjCSynthesizeDecl => "ObjCSynthesizeDecl"@,
        CursorKind::ObjCDynamicDecl => "ObjCDynamicDecl"@,
        CursorKind::CXXAccessSpecifier => "CXXAccessSpecifier"@,
        CursorKind::ObjCProtocolRef => "ObjCProtocolRef"@,
        CursorKind::ObjCClassRef => "ObjCClassRef"@,
        CursorKind::TypeRef => "TypeRef"@,
        CursorKind::CXXBaseSpecifier => "CXXBaseSpecifier"@,
        CursorKind::TemplateRef => "TemplateRef"@,
        CursorKind::NamespaceRef => "NamespaceRef"@,
        CursorKind::MemberRef => "MemberRef"@,
        CursorKind::OverloadedDeclRef => "OverloadedDeclRef"@,
        CursorKind::VariableRef => "VariableRef"@,
        CursorKind::InvalidFile => "?"@,
        CursorKind::NoDeclFound => "NoDeclFound"@,
        CursorKind::NotImplemented => "NotImplemented"@,
        CursorKind::InvalidCode => "InvalidCode"@,
        CursorKind::DeclRefExpr => "DeclRefExpr"@,
        CursorKind::MemberRefExpr => "MemberRefExpr"@,
        CursorKind::CallExpr => "CallExpr"@,
        CursorKind::ObjCMessageExpr => "ObjCMessageExpr"@,
        CursorKind::BlockExpr => "BlockExpr"@,
        CursorKind::IntegerLiteral => "IntegerLiteral"@,
        CursorKind::FloatingLiteral => "FloatingLiteral"@,
        CursorKind::ImaginaryLiteral => "ImaginaryLiteral"@,
        CursorKind::StringLiteral => "StringLiteral"@,
        CursorKind::CharacterLiteral => "CharacterLiteral"@,
        CursorKind::ParenExpr => "ParenExpr"@,
        CursorKind::UnaryOperator => "UnaryOperator"@,
        CursorKind::ArraySubscriptExpr => "ArraySubscriptExpr"@,
        CursorKind::BinaryOperator => "BinaryOperator"@,
        CursorKind::CompoundAssignOperator => "CompoundAssignOperator"@,
        CursorKind::ConditionalOperator => "ConditionalOperator"@,
        CursorKind::CStyleCastExpr => "CStyleCastExpr"@,
        CursorKind::CompoundLiteralExpr => "CompoundLiteralExpr"@,
        CursorKind::InitListExpr => "InitListExpr"@,
        CursorKind::AddrLabelExpr => "AddrLabelExpr"@,
        CursorKind::StmtExpr => "StmtExpr"@,
        CursorKind::GenericSelectionExpr => "GenericSelectionExpr"@,
        CursorKind::GNUNullExpr => "GNUNullExpr"@,
        CursorKind::CXXStaticCastExpr => "CXXStaticCastExpr"@,
        CursorKind::CXXDynamicCastExpr => "CXXDynamicCastExpr"@,
        CursorKind::CXXReinterpretCastExpr => "CXXReinterpretCastExpr"@,
        CursorKind::CXXConstCastExpr => "CXXConstCastExpr"@,
        CursorKind::CXXFunctionalCastExpr => "CXXFunctionalCastExpr"@,
        CursorKind::CXXTypeidExpr => "CXXTypeidExpr"@,
        CursorKind::CXXBoolLiteralExpr => "CXXBoolLiteralExpr"@,
        CursorKind::CXXNullPtrLiteralExpr => "CXXNullPtrLiteralExpr"@,
        CursorKind::CXXThisExpr => "CXXThisExpr"@,
        CursorKind::CXXThrowExpr => "CXXThrowExpr"@,
        CursorKind::CXXNewExpr => "CXXNewExpr"@,
        CursorKind::CXXDeleteExpr => "CXXDeleteExpr"@,
        CursorKind::UnaryExpr => "UnaryExpr"@,
        CursorKind::ObjCStringLiteral => "ObjCStringLiteral"@,
        CursorKind::ObjCEncodeExpr => "ObjCEncodeExpr"@,
        CursorKind::ObjCSelectorExpr => "ObjCSelectorExpr"@,
        CursorKind::ObjCProtocolExpr => "ObjCProtocolExpr"@,
        CursorKind::ObjCBridgedCastExpr => "ObjCBridgedCastExpr"@,
        CursorKind::PackExpansionExpr => "PackExpansionExpr"@,
        CursorKind::SizeOfPackExpr => "SizeOfPackExpr"@,
        CursorKind::LambdaExpr => "LambdaExpr"@,
        CursorKind::ObjCBoolLiteralExpr => "ObjCBoolLiteralExpr"@,
        CursorKind::LabelStmt => "LabelStmt"@,
        CursorKind::CompoundStmt => "CompoundStmt"@,
        CursorKind::CaseStmt => "CaseStmt"@,
        CursorKind::DefaultStmt => "DefaultStmt"@,
        CursorKind::IfStmt => "IfStmt"@,
        CursorKind::SwitchStmt => "SwitchStmt"@,
        CursorKind::WhileStmt => "WhileStmt"@,
        CursorKind::DoStmt => "DoStmt"@,
        CursorKind::ForStmt => "ForStmt"@,
        CursorKind::GotoStmt => "GotoStmt"@,
        CursorKind::IndirectGotoStmt => "IndirectGotoStmt"@,
        CursorKind::ContinueStmt => "ContinueStmt"@,
        CursorKind::BreakStmt => "BreakStmt"@,
        CursorKind::ReturnStmt => "ReturnStmt"@,
        CursorKind::AsmStmt => "AsmStmt"@,
        CursorKind::ObjCAtTryStmt => "ObjCAtTryStmt"@,
        CursorKind::ObjCAtCatchStmt => "ObjCAtCatchStmt"@,
        CursorKind::ObjCAtFinallyStmt => "ObjCAtFinallyStmt"@,
        CursorKind::ObjCAtThrowStmt => "ObjCAtThrowStmt"@,
        CursorKind::ObjCAtSynchronizedStmt => "ObjCAtSynchronizedStmt"@,
        CursorKind::ObjCAutoreleasePoolStmt => "ObjCAutoreleasePoolStmt"@,
        CursorKind::ObjCForCollectionStmt => "ObjCForCollectionStmt"@,
        CursorKind::CXXCatchStmt => "CXXCatchStmt"@,
        CursorKind::CXXTryStmt => "CXXTryStmt"@,
        CursorKind::CXXForRangeStmt => "CXXForRangeStmt"@,
        CursorKind::SEHTryStmt => "SEHTryStmt"@,
        CursorKind::SEHExceptStmt => "SEHExceptStmt"@,
        CursorKind::SEHFinallyStmt => "SEHFinallyStmt"@,
        CursorKind::NullStmt => "NullStmt"@,
        CursorKind::DeclStmt => "DeclStmt"@,
        CursorKind::TranslationUnit => "TranslationUnit"@,
        CursorKind::IBActionAttr => "IBActionAttr"@,
        CursorKind::IBOutletAttr => "IBOutletAttr"@,
        CursorKind::IBOutletCollectionAttr => "IBOutletCollectionAttr"@,
        CursorKind::CXXFinalAttr => "CXXFinalAttr"@,
        CursorKind::CXXOverrideAttr => "CXXOverrideAttr"@,
        CursorKind::AnnotateAttr => "AnnotateAttr"@,
        CursorKind::AsmLabelAttr => "AsmLabelAttr"@,
        CursorKind::PackedAttr => "PackedAttr"@,
        CursorKind::PreprocessingDirective => "PreprocessingDirective"@,
        CursorKind::MacroDefinition => "MacroDefinition"@,
        CursorKind::MacroExpansion => "MacroExpansion"@,
        CursorKind::InclusionDirective => "InclusionDirective"@,
        CursorKind::Other(_) => "?"@,
    }
}

/// Maps a cursor kind to its fixed human-readable debug label; any
/// enumerator absent from the table maps to the unknown marker rather
/// than failing.
pub fn kind_to_str(x: CursorKind) -> (r: &'static str)
    ensures
        r@ == cursor_kind_label(x),
{
    match x {
        CursorKind::UnexposedDecl => "UnexposedDecl",
        CursorKind::StructDecl => "StructDecl",
        CursorKind::UnionDecl => "UnionDecl",
        CursorKind::ClassDecl => "ClassDecl",
        CursorKind::EnumDecl => "EnumDecl",
        CursorKind::FieldDecl => "FieldDecl",
        CursorKind::EnumConstantDecl => "EnumConstantDecl",
        CursorKind::FunctionDecl => "FunctionDecl",
        CursorKind::VarDecl => "VarDecl",
        CursorKind::ParmDecl => "ParmDecl",
        CursorKind::ObjCInterfaceDecl => "ObjCInterfaceDecl",
        CursorKind::ObjCCategoryDecl => "ObjCCategoryDecl",
        CursorKind::ObjCProtocolDecl => "ObjCProtocolDecl",
        CursorKind::ObjCPropertyDecl => "ObjCPropertyDecl",
        CursorKind::ObjCIvarDecl => "ObjCIvarDecl",
        CursorKind::ObjCInstanceMethodDecl => "ObjCInstanceMethodDecl",
        CursorKind::ObjCClassMethodDecl => "ObjCClassMethodDecl",
        CursorKind::ObjCImplementationDecl => "ObjCImplementationDecl",
        CursorKind::ObjCCategoryImplDecl => "ObjCCategoryImplDecl",
        CursorKind::TypedefDecl => "TypedefDecl",
        CursorKind::CXXMethod => "CXXMethod",
        CursorKind::Namespace => "Namespace",
        CursorKind::LinkageSpec => "LinkageSpec",
        CursorKind::Constructor => "Constructor",
        CursorKind::Destructor => "Destructor",
        CursorKind::ConversionFunction => "ConversionFunction",
        CursorKind::TemplateTypeParameter => "TemplateTypeParameter",
        CursorKind::NonTypeTemplateParameter => "NonTypeTemplateParameter",
        CursorKind::TemplateTemplateParameter => "TemplateTemplateParameter",
        CursorKind::FunctionTemplate => "FunctionTemplate",
        CursorKind::ClassTemplate => "ClassTemplate",
        CursorKind::ClassTemplatePartialSpecialization => "ClassTemplatePartialSpecialization",
        CursorKind::NamespaceAlias => "NamespaceAlias",
        CursorKind::UsingDirective => "UsingDirective",
        CursorKind::UsingDeclaration => "UsingDeclaration",
        CursorKind::TypeAliasDecl => "TypeAliasDecl",
        CursorKind::ObjCSynthesizeDecl => "ObjCSynthesizeDecl",
        CursorKind::ObjCDynamicDecl => "ObjCDynamicDecl",
        CursorKind::CXXAccessSpecifier => "CXXAccessSpecifier",
        CursorKind::ObjCProtocolRef => "ObjCProtocolRef",
        CursorKind::ObjCClassRef => "ObjCClassRef",
        CursorKind::TypeRef => "TypeRef",
        CursorKind::CXXBaseSpecifier => "CXXBaseSpecifier",
        CursorKind::TemplateRef => "TemplateRef",
        CursorKind::NamespaceRef => "NamespaceRef",
        CursorKind::MemberRef => "MemberRef",
        CursorKind::OverloadedDeclRef => "OverloadedDeclRef",
        CursorKind::VariableRef => "VariableRef",
        CursorKind::InvalidFile => "?",
        CursorKind::NoDeclFound => "NoDeclFound",
        CursorKind::NotImplemented => "NotImplemented",
        CursorKind::InvalidCode => "InvalidCode",
        CursorKind::DeclRefExpr => "DeclRefExpr",
        CursorKind::MemberRefExpr => "MemberRefExpr",
        CursorKind::CallExpr => "CallExpr",
        CursorKind::ObjCMessageExpr => "ObjCMessageExpr",
        CursorKind::BlockExpr => "BlockExpr",
        CursorKind::IntegerLiteral => "IntegerLiteral",
        CursorKind::FloatingLiteral => "FloatingLiteral",
        CursorKind::ImaginaryLiteral => "ImaginaryLiteral",
        CursorKind::StringLiteral => "StringLiteral",
        CursorKind::CharacterLiteral => "CharacterLiteral",
        CursorKind::ParenExpr => "ParenExpr",
        CursorKind::UnaryOperator => "UnaryOperator",
        CursorKind::ArraySubscriptExpr => "ArraySubscriptExpr",
        CursorKind::BinaryOperator => "BinaryOperator",
        CursorKind::CompoundAssignOperator => "CompoundAssignOperator",
        CursorKind::ConditionalOperator => "ConditionalOperator",
        CursorKind::CStyleCastExpr => "CStyleCastExpr",
        CursorKind::CompoundLiteralExpr => "CompoundLiteralExpr",
        CursorKind::InitListExpr => "InitListExpr",
        CursorKind::AddrLabelExpr => "AddrLabelExpr",
        CursorKind::StmtExpr => "StmtExpr",
        CursorKind::GenericSelectionExpr => "GenericSelectionExpr",
        CursorKind::GNUNullExpr => "GNUNullExpr",
        CursorKind::CXXStaticCastExpr => "CXXStaticCastExpr",
        CursorKind::CXXDynamicCastExpr => "CXXDynamicCastExpr",
        CursorKind::CXXReinterpretCastExpr => "CXXReinterpretCastExpr",
        CursorKind::CXXConstCastExpr => "CXXConstCastExpr",
        CursorKind::CXXFunctionalCastExpr => "CXXFunctionalCastExpr",
        CursorKind::CXXTypeidExpr => "CXXTypeidExpr",
        CursorKind::CXXBoolLiteralExpr => "CXXBoolLiteralExpr",
        CursorKind::CXXNullPtrLiteralExpr => "CXXNullPtrLiteralExpr",
        CursorKind::CXXThisExpr => "CXXThisExpr",
        CursorKind::CXXThrowExpr => "CXXThrowExpr",
        CursorKind::CXXNewExpr => "CXXNewExpr",
        CursorKind::CXXDeleteExpr => "CXXDeleteExpr",
        CursorKind::UnaryExpr => "UnaryExpr",
        CursorKind::ObjCStringLiteral => "ObjCStringLiteral",
        CursorKind::ObjCEncodeExpr => "ObjCEncodeExpr",
        CursorKind::ObjCSelectorExpr => "ObjCSelectorExpr",
        CursorKind::ObjCProtocolExpr => "ObjCProtocolExpr",
        CursorKind::ObjCBridgedCastExpr => "ObjCBridgedCastExpr",
        CursorKind::PackExpansionExpr => "PackExpansionExpr",
        CursorKind::SizeOfPackExpr => "SizeOfPackExpr",
        CursorKind::LambdaExpr => "LambdaExpr",
        CursorKind::ObjCBoolLiteralExpr => "ObjCBoolLiteralExpr",
        CursorKind::LabelStmt => "LabelStmt",
        CursorKind::CompoundStmt => "CompoundStmt",
        CursorKind::CaseStmt => "CaseStmt",
        CursorKind::DefaultStmt => "DefaultStmt",
        CursorKind::IfStmt => "IfStmt",
        CursorKind::SwitchStmt => "SwitchStmt",
        CursorKind::WhileStmt => "WhileStmt",
        CursorKind::DoStmt => "DoStmt",
        CursorKind::ForStmt => "ForStmt",
        CursorKind::GotoStmt => "GotoStmt",
        CursorKind::IndirectGotoStmt => "IndirectGotoStmt",
        CursorKind::ContinueStmt => "ContinueStmt",
        CursorKind::BreakStmt => "BreakStmt",
        CursorKind::ReturnStmt => "ReturnStmt",
        CursorKind::AsmStmt => "AsmStmt",
        CursorKind::ObjCAtTryStmt => "ObjCAtTryStmt",
        CursorKind::ObjCAtCatchStmt => "ObjCAtCatchStmt",
        CursorKind::ObjCAtFinallyStmt => "ObjCAtFinallyStmt",
        CursorKind::ObjCAtThrowStmt => "ObjCAtThrowStmt",
        CursorKind::ObjCAtSynchronizedStmt => "ObjCAtSynchronizedStmt",
        CursorKind::ObjCAutoreleasePoolStmt => "ObjCAutoreleasePoolStmt",
        CursorKind::ObjCForCollectionStmt => "ObjCForCollectionStmt",
        CursorKind::CXXCatchStmt => "CXXCatchStmt",
        CursorKind::CXXTryStmt => "CXXTryStmt",
        CursorKind::CXXForRangeStmt => "CXXForRangeStmt",
        CursorKind::SEHTryStmt => "SEHTryStmt",
        CursorKind::SEHExceptStmt => "SEHExceptStmt",
        CursorKind::SEHFinallyStmt => "SEHFinallyStmt",
        CursorKind::NullStmt => "NullStmt",
        CursorKind::DeclStmt => "DeclStmt",
        CursorKind::TranslationUnit => "TranslationUnit",
        CursorKind::IBActionAttr => "IBActionAttr",
        CursorKind::IBOutletAttr => "IBOutletAttr",
        CursorKind::IBOutletCollectionAttr => "IBOutletCollectionAttr",
        CursorKind::CXXFinalAttr => "CXXFinalAttr",
        CursorKind::CXXOverrideAttr => "CXXOverrideAttr",
        CursorKind::AnnotateAttr => "AnnotateAttr",
        CursorKind::AsmLabelAttr => "AsmLabelAttr",
        CursorKind::PackedAttr => "PackedAttr",
        CursorKind::PreprocessingDirective => "PreprocessingDirective",
        CursorKind::MacroDefinition => "MacroDefinition",
        CursorKind::MacroExpansion => "MacroExpansion",
        CursorKind::InclusionDirective => "InclusionDirective",
        CursorKind::Other(_) => "?",
    }
}

/// The CursorKind that stands for a native enumerator code.
pub open spec fn cursor_kind_of_code(c: u32) -> CursorKind {
    match c {
        1u32 => CursorKind::UnexposedDecl,
        2u32 => CursorKind::StructDecl,
        3u32 => CursorKind::UnionDecl,
        4u32 => CursorKind::ClassDecl,
        5u32 => CursorKind::EnumDecl,
        6u32 => CursorKind::FieldDecl,
        7u32 => CursorKind::EnumConstantDecl,
        8u32 => CursorKind::FunctionDecl,
        9u32 => CursorKind::VarDecl,
        10u32 => CursorKind::ParmDecl,
        11u32 => CursorKind::ObjCInterfaceDecl,
        12u32 => CursorKind::ObjCCategoryDecl,
        13u32 => CursorKind::ObjCProtocolDecl,
        14u32 => CursorKind::ObjCPropertyDecl,
        15u32 => CursorKind::ObjCIvarDecl,
        16u32 => CursorKind::ObjCInstanceMethodDecl,
        17u32 => CursorKind::ObjCClassMethodDecl,
        18u32 => CursorKind::ObjCImplementationDecl,
        19u32 => CursorKind::ObjCCategoryImplDecl,
        20u32 => CursorKind::TypedefDecl,
        21u32 => CursorKind::CXXMethod,
        22u32 => CursorKind::Namespace,
        23u32 => CursorKind::LinkageSpec,
        24u32 => CursorKind::Constructor,
        25u32 => CursorKind::Destructor,
        26u32 => CursorKind::ConversionFunction,
        27u32 => CursorKind::TemplateTypeParameter,
        28u32 => CursorKind::NonTypeTemplateParameter,
        29u32 => CursorKind::TemplateTemplateParameter,
        30u32 => CursorKind::FunctionTemplate,
        31u32 => CursorKind::ClassTemplate,
        32u32 => CursorKind::ClassTemplatePartialSpecialization,
        33u32 => CursorKind::NamespaceAlias,
        34u32 => CursorKind::UsingDirective,
        35u32 => CursorKind::UsingDeclaration,
        36u32 => CursorKind::TypeAliasDecl,
        37u32 => CursorKind::ObjCSynthesizeDecl,
        38u32 => CursorKind::ObjCDynamicDecl,
        39u32 => CursorKind::CXXAccessSpecifier,
        41u32 => CursorKind::ObjCProtocolRef,
        42u32 => CursorKind::ObjCClassRef,
        43u32 => CursorKind::TypeRef,
        44u32 => CursorKind::CXXBaseSpecifier,
        45u32 => CursorKind::TemplateRef,
        46u32 => CursorKind::NamespaceRef,
        47u32 => CursorKind::MemberRef,
        49u32 => CursorKind::OverloadedDeclRef,
        50u32 => CursorKind::VariableRef,
        70u32 => CursorKind::InvalidFile,
        71u32 => CursorKind::NoDeclFound,
        72u32 => CursorKind::NotImplemented,
        73u32 => CursorKind::InvalidCode,
        101u32 => CursorKind::DeclRefExpr,
        102u32 => CursorKind::MemberRefExpr,
        103u32 => CursorKind::CallExpr,
        104u32 => CursorKind::ObjCMessageExpr,
        105u32 => CursorKind::BlockExpr,
        106u32 => CursorKind::IntegerLiteral,
        107u32 => CursorKind::FloatingLiteral,
        108u32 => CursorKind::ImaginaryLiteral,
        109u32 => CursorKind::StringLiteral,
        110u32 => CursorKind::CharacterLiteral,
        111u32 => CursorKind::ParenExpr,
        112u32 => CursorKind::UnaryOperator,
        113u32 => CursorKind::ArraySubscriptExpr,
        114u32 => CursorKind::BinaryOperator,
        115u32 => CursorKind::CompoundAssignOperator,
        116u32 => CursorKind::ConditionalOperator,
        117u32 => CursorKind::CStyleCastExpr,
        118u32 => CursorKind::CompoundLiteralExpr,
        119u32 => CursorKind::InitListExpr,
        120u32 => CursorKind::AddrLabelExpr,
        121u32 => CursorKind::StmtExpr,
        122u32 => CursorKind::GenericSelectionExpr,
        123u32 => CursorKind::GNUNullExpr,
        124u32 => CursorKind::CXXStaticCastExpr,
        125u32 => CursorKind::CXXDynamicCastExpr,
        126u32 => CursorKind::CXXReinterpretCastExpr,
        127u32 => CursorKind::CXXConstCastExpr,
        128u32 => CursorKind::CXXFunctionalCastExpr,
        129u32 => CursorKind::CXXTypeidExpr,
        130u32 => CursorKind::CXXBoolLiteralExpr,
        131u32 => CursorKind::CXXNullPtrLiteralExpr,
        132u32 => CursorKind::CXXThisExpr,
        133u32 => CursorKind::CXXThrowExpr,
        134u32 => CursorKind::CXXNewExpr,
        135u32 => CursorKind::CXXDeleteExpr,
        136u32 => CursorKind::UnaryExpr,
        137u32 => CursorKind::ObjCStringLiteral,
        138u32 => CursorKind::ObjCEncodeExpr,
        139u32 => CursorKind::ObjCSelectorExpr,
        140u32 => CursorKind::ObjCProtocolExpr,
        141u32 => CursorKind::ObjCBridgedCastExpr,
        142u32 => CursorKind::PackExpansionExpr,
        143u32 => CursorKind::SizeOfPackExpr,
        144u32 => CursorKind::LambdaExpr,
        145u32 => CursorKind::ObjCBoolLiteralExpr,
        201u32 => CursorKind::LabelStmt,
        202u32 => CursorKind::CompoundStmt,
        203u32 => CursorKind::CaseStmt,
        204u32 => CursorKind::DefaultStmt,
        205u32 => CursorKind::IfStmt,
        206u32 => CursorKind::SwitchStmt,
        207u32 => CursorKind::WhileStmt,
        208u32 => CursorKind::DoStmt,
        209u32 => CursorKind::ForStmt,
        210u32 => CursorKind::GotoStmt,
        211u32 => CursorKind::IndirectGotoStmt,
        212u32 => CursorKind::ContinueStmt,
        213u32 => CursorKind::BreakStmt,
        214u32 => CursorKind::ReturnStmt,
        215u32 => CursorKind::AsmStmt,
        216u32 => CursorKind::ObjCAtTryStmt,
        217u32 => CursorKind::ObjCAtCatchStmt,
        218u32 => CursorKind::ObjCAtFinallyStmt,
        219u32 => CursorKind::ObjCAtThrowStmt,
        220u32 => CursorKind::ObjCAtSynchronizedStmt,
        221u32 => CursorKind::ObjCAutoreleasePoolStmt,
        222u32 => CursorKind::ObjCForCollectionStmt,
        223u32 => CursorKind::CXXCatchStmt,
        224u32 => CursorKind::CXXTryStmt,
        225u32 => CursorKind::CXXForRangeStmt,
        226u32 => CursorKind::SEHTryStmt,
        227u32 => CursorKind::SEHExceptStmt,
        228u32 => CursorKind::SEHFinallyStmt,
        230u32 => CursorKind::NullStmt,
        231u32 => CursorKind::DeclStmt,
        300u32 => CursorKind::TranslationUnit,
        401u32 => CursorKind::IBActionAttr,
        402u32 => CursorKind::IBOutletAttr,
        403u32 => CursorKind::IBOutletCollectionAttr,
        404u32 => CursorKind::CXXFinalAttr,
        405u32 => CursorKind::CXXOverrideAttr,
        406u32 => CursorKind::AnnotateAttr,
        407u32 => CursorKind::AsmLabelAttr,
        408u32 => CursorKind::PackedAttr,
        500u32 => CursorKind::PreprocessingDirective,
        501u32 => CursorKind::MacroDefinition,
        502u32 => CursorKind::MacroExpansion,
        503u32 => CursorKind::InclusionDirective,
        _ => CursorKind::Other(c),
    }
}

pub fn cursor_kind_from_raw(c: u32) -> (r: CursorKind)
    ensures
        r == cursor_kind_of_code(c),
{
    match c {
        1u32 => CursorKind::UnexposedDecl,
        2u32 => CursorKind::StructDecl,
        3u32 => CursorKind::UnionDecl,
        4u32 => CursorKind::ClassDecl,
        5u32 => CursorKind::EnumDecl,
        6u32 => CursorKind::FieldDecl,
        7u32 => CursorKind::EnumConstantDecl,
        8u32 => CursorKind::FunctionDecl,
        9u32 => CursorKind::VarDecl,
        10u32 => CursorKind::ParmDecl,
        11u32 => CursorKind::ObjCInterfaceDecl,
        12u32 => CursorKind::ObjCCategoryDecl,
        13u32 => CursorKind::ObjCProtocolDecl,
        14u32 => CursorKind::ObjCPropertyDecl,
        15u32 => CursorKind::ObjCIvarDecl,
        16u32 => CursorKind::ObjCInstanceMethodDecl,
        17u32 => CursorKind::ObjCClassMethodDecl,
        18u32 => CursorKind::ObjCImplementationDecl,
        19u32 => CursorKind::ObjCCategoryImplDecl,
        20u32 => CursorKind::TypedefDecl,
        21u32 => CursorKind::CXXMethod,
        22u32 => CursorKind::Namespace,
        23u32 => CursorKind::LinkageSpec,
        24u32 => CursorKind::Constructor,
        25u32 => CursorKind::Destructor,
        26u32 => CursorKind::ConversionFunction,
        27u32 => CursorKind::TemplateTypeParameter,
        28u32 => CursorKind::NonTypeTemplateParameter,
        29u32 => CursorKind::TemplateTemplateParameter,
        30u32 => CursorKind::FunctionTemplate,
        31u32 => CursorKind::ClassTemplate,
        32u32 => CursorKind::ClassTemplatePartialSpecialization,
        33u32 => CursorKind::NamespaceAlias,
        34u32 => CursorKind::UsingDirective,
        35u32 => CursorKind::UsingDeclaration,
        36u32 => CursorKind::TypeAliasDecl,
        37u32 => CursorKind::ObjCSynthesizeDecl,
        38u32 => CursorKind::ObjCDynamicDecl,
        39u32 => CursorKind::CXXAccessSpecifier,
        41u32 => CursorKind::ObjCProtocolRef,
        42u32 => CursorKind::ObjCClassRef,
        43u32 => CursorKind::TypeRef,
        44u32 => CursorKind::CXXBaseSpecifier,
        45u32 => CursorKind::TemplateRef,
        46u32 => CursorKind::NamespaceRef,
        47u32 => CursorKind::MemberRef,
        49u32 => CursorKind::OverloadedDeclRef,
        50u32 => CursorKind::VariableRef,
        70u32 => CursorKind::InvalidFile,
        71u32 => CursorKind::NoDeclFound,
        72u32 => CursorKind::NotImplemented,
        73u32 => CursorKind::InvalidCode,
        101u32 => CursorKind::DeclRefExpr,
        102u32 => CursorKind::MemberRefExpr,
        103u32 => CursorKind::CallExpr,
        104u32 => CursorKind::ObjCMessageExpr,
        105u32 => CursorKind::BlockExpr,
        106u32 => CursorKind::IntegerLiteral,
        107u32 => CursorKind::FloatingLiteral,
        108u32 => CursorKind::ImaginaryLiteral,
        109u32 => CursorKind::StringLiteral,
        110u32 => CursorKind::CharacterLiteral,
        111u32 => CursorKind::ParenExpr,
        112u32 => CursorKind::UnaryOperator,
        113u32 => CursorKind::ArraySubscriptExpr,
        114u32 => CursorKind::BinaryOperator,
        115u32 => CursorKind::CompoundAssignOperator,
        116u32 => CursorKind::ConditionalOperator,
        117u32 => CursorKind::CStyleCastExpr,
        118u32 => CursorKind::CompoundLiteralExpr,
        119u32 => CursorKind::InitListExpr,
        120u32 => CursorKind::AddrLabelExpr,
        121u32 => CursorKind::StmtExpr,
        122u32 => CursorKind::GenericSelectionExpr,
        123u32 => CursorKind::GNUNullExpr,
        124u32 => CursorKind::CXXStaticCastExpr,
        125u32 => CursorKind::CXXDynamicCastExpr,
        126u32 => CursorKind::CXXReinterpretCastExpr,
        127u32 => CursorKind::CXXConstCastExpr,
        128u32 => CursorKind::CXXFunctionalCastExpr,
        129u32 => CursorKind::CXXTypeidExpr,
        130u32 => CursorKind::CXXBoolLiteralExpr,
        131u32 => CursorKind::CXXNullPtrLiteralExpr,
        132u32 => CursorKind::CXXThisExpr,
        133u32 => CursorKind::CXXThrowExpr,
        134u32 => CursorKind::CXXNewExpr,
        135u32 => CursorKind::CXXDeleteExpr,
        136u32 => CursorKind::UnaryExpr,
        137u32 => CursorKind::ObjCStringLiteral,
        138u32 => CursorKind::ObjCEncodeExpr,
        139u32 => CursorKind::ObjCSelectorExpr,
        140u32 => CursorKind::ObjCProtocolExpr,
        141u32 => CursorKind::ObjCBridgedCastExpr,
        142u32 => CursorKind::PackExpansionExpr,
        143u32 => CursorKind::SizeOfPackExpr,
        144u32 => CursorKind::LambdaExpr,
        145u32 => CursorKind::ObjCBoolLiteralExpr,
        201u32 => CursorKind::LabelStmt,
        202u32 => CursorKind::CompoundStmt,
        203u32 => CursorKind::CaseStmt,
        204u32 => CursorKind::DefaultStmt,
        205u32 => CursorKind::IfStmt,
        206u32 => CursorKind::SwitchStmt,
        207u32 => CursorKind::WhileStmt,
        208u32 => CursorKind::DoStmt,
        209u32 => CursorKind::ForStmt,
        210u32 => CursorKind::GotoStmt,
        211u32 => CursorKind::IndirectGotoStmt,
        212u32 => CursorKind::ContinueStmt,
        213u32 => CursorKind::BreakStmt,
        214u32 => CursorKind::ReturnStmt,
        215u32 => CursorKind::AsmStmt,
        216u32 => CursorKind::ObjCAtTryStmt,
        217u32 => CursorKind::ObjCAtCatchStmt,
        218u32 => CursorKind::ObjCAtFinallyStmt,
        219u32 => CursorKind::ObjCAtThrowStmt,
        220u32 => CursorKind::ObjCAtSynchronizedStmt,
        221u32 => CursorKind::ObjCAutoreleasePoolStmt,
        222u32 => CursorKind::ObjCForCollectionStmt,
        223u32 => CursorKind::CXXCatchStmt,
        224u32 => CursorKind::CXXTryStmt,
        225u32 => CursorKind::CXXForRangeStmt,
        226u32 => CursorKind::SEHTryStmt,
        227u32 => CursorKind::SEHExceptStmt,
        228u32 => CursorKind::SEHFinallyStmt,
        230u32 => CursorKind::NullStmt,
        231u32 => CursorKind::DeclStmt,
        300u32 => CursorKind::TranslationUnit,
        401u32 => CursorKind::IBActionAttr,
        402u32 => CursorKind::IBOutletAttr,
        403u32 => CursorKind::IBOutletCollectionAttr,
        404u32 => CursorKind::CXXFinalAttr,
        405u32 => CursorKind::CXXOverrideAttr,
        406u32 => CursorKind::AnnotateAttr,
        407u32 => CursorKind::AsmLabelAttr,
        408u32 => CursorKind::PackedAttr,
        500u32 => CursorKind::PreprocessingDirective,
        501u32 => CursorKind::MacroDefinition,
        502u32 => CursorKind::MacroExpansion,
        503u32 => CursorKind::InclusionDirective,
        _ => CursorKind::Other(c),
    }
}

/// The frontend's "invalid" classification of node kinds: the reserved
/// band of enumerator codes that mark an unresolved or absent node.
pub open spec fn spec_is_invalid_kind(k: CursorKind) -> bool {
    match k {
        CursorKind::InvalidFile => true,
        CursorKind::NoDeclFound => true,
        CursorKind::NotImplemented => true,
        CursorKind::InvalidCode => true,
        CursorKind::Other(c) => 70 <= c && c <= 73,
        _ => false,
    }
}

pub fn is_invalid_kind(k: CursorKind) -> (r: bool)
    ensures
        r == spec_is_invalid_kind(k),
{
    match k {
        CursorKind::InvalidFile => true,
        CursorKind::NoDeclFound => true,
        CursorKind::NotImplemented => true,
        CursorKind::InvalidCode => true,
        CursorKind::Other(c) => 70 <= c && c <= 73,
        _ => false,
    }
}

/// The kind tag of one resolved type.
#[derive(Clone, Copy, Debug, PartialEq, Eq, Structural)]
pub enum TypeKind {
    Invalid,
    Unexposed,
    Void,
    Bool,
    Char_U,
    UChar,
    Char16,
    Char32,
    UShort,
    UInt,
    ULong,
    ULongLong,
    UInt128,
    Char_S,
    SChar,
    WChar,
    Short,
    Int,
    Long,
    LongLong,
    Int128,
    Float,
    Double,
    LongDouble,
    NullPtr,
    Overload,
    Dependent,
    ObjCId,
    ObjCClass,
    ObjCSel,
    Complex,
    Pointer,
    BlockPointer,
    LValueReference,
    RValueReference,
    Record,
    Enum,
    Typedef,
    ObjCInterface,
    ObjCObjectPointer,
    FunctionNoProto,
    FunctionProto,
    ConstantArray,
    Vector,
    IncompleteArray,
    VariableArray,
    DependentSizedArray,
    MemberPointer,
    Auto,
    Elaborated,
    /// An enumerator of the native taxonomy that this table does not name.
    Other(u32),
}

/// The fixed debug label of each TypeKind; enumerators absent from the table map to "?".
pub open spec fn type_kind_label(k: TypeKind) -> Seq<char> {
    match k {
        TypeKind::Invalid => "Invalid"@,
        TypeKind::Unexposed => "Unexposed"@,
        TypeKind::Void => "Void"@,
        TypeKind::Bool => "Bool"@,
        TypeKind::Char_U => "Char_U"@,
        TypeKind::UChar => "UChar"@,
        TypeKind::Char16 => "Char16"@,
        TypeKind::Char32 => "Char32"@,
        TypeKind::UShort => "UShort"@,
        TypeKind::UInt => "UInt"@,
        TypeKind::ULong => "ULong"@,
        TypeKind::ULongLong => "ULongLong"@,
        TypeKind::UInt128 => "UInt128"@,
        TypeKind::Char_S => "Char_S"@,
        TypeKind::SChar => "SChar"@,
        TypeKind::WChar => "WChar"@,
        TypeKind::Short => "Short"@,
        TypeKind::Int => "Int"@,
        TypeKind::Long => "Long"@,
        TypeKind::LongLong => "LongLong"@,
        TypeKind::Int128 => "Int128"@,
        TypeKind::Float => "Float"@,
        TypeKind::Double => "Double"@,
        TypeKind::LongDouble => "LongDouble"@,
        TypeKind::NullPtr => "NullPtr"@,
        TypeKind::Overload => "Overload"@,
        TypeKind::Dependent => "Dependent"@,
        TypeKind::ObjCId => "ObjCId"@,
        TypeKind::ObjCClass => "ObjCClass"@,
        TypeKind::ObjCSel => "ObjCSel"@,
        TypeKind::Complex => "Complex"@,
        TypeKind::Pointer => "Pointer"@,
        TypeKind::BlockPointer => "BlockPointer"@,
        TypeKind::LValueReference => "LValueReference"@,
        TypeKind::RValueReference => "RValueReference"@,
        TypeKind::Record => "Record"@,
        TypeKind::Enum => "Enum"@,
        TypeKind::Typedef => "Typedef"@,
        TypeKind::ObjCInterface => "ObjCInterface"@,
        TypeKind::ObjCObjectPointer => "ObjCObjectPointer"@,
        TypeKind::FunctionNoProto => "FunctionNoProto"@,
        TypeKind::FunctionProto => "FunctionProto"@,
        TypeKind::ConstantArray => "ConstantArray"@,
        TypeKind::Vector => "Vector"@,
        TypeKind::IncompleteArray => "IncompleteArray"@,
        TypeKind::VariableArray => "VariableArray"@,
        TypeKind::DependentSizedArray => "DependentSizedArray"@,
        TypeKind::MemberPointer => "MemberPointer"@,
        TypeKind::Auto => "Auto"@,
        TypeKind::Elaborated => "Elaborated"@,
        TypeKind::Other(_) => "?"@,
    }
}

/// Maps a type kind to its fixed human-readable debug label; any
/// enumerator absent from the table maps to the unknown marker rather
/// than failing.
pub fn type_to_str(x: TypeKind) -> (r: &'static str)
    ensures
        r@ == type_kind_label(x),
{
    match x {
        TypeKind::Invalid => "Invalid",
        TypeKind::Unexposed => "Unexposed",
        TypeKind::Void => "Void",
        TypeKind::Bool => "Bool",
        TypeKind::Char_U => "Char_U",
        TypeKind::UChar => "UChar",
        TypeKind::Char16 => "Char16",
        TypeKind::Char32 => "Char32",
        TypeKind::UShort => "UShort",
        TypeKind::UInt => "UInt",
        TypeKind::ULong => "ULong",
        TypeKind::ULongLong => "ULongLong",
        TypeKind::UInt128 => "UInt128",
        TypeKind::Char_S => "Char_S",
        TypeKind::SChar => "SChar",
        TypeKind::WChar => "WChar",
        TypeKind::Short => "Short",
        TypeKind::Int => "Int",
        TypeKind::Long => "Long",
        TypeKind::LongLong => "LongLong",
        TypeKind::Int128 => "Int128",
        TypeKind::Float => "Float",
        TypeKind::Double => "Double",
        TypeKind::LongDouble => "LongDouble",
        TypeKind::NullPtr => "NullPtr",
        TypeKind::Overload => "Overload",
        TypeKind::Dependent => "Dependent",
        TypeKind::ObjCId => "ObjCId",
        TypeKind::ObjCClass => "ObjCClass",
        TypeKind::ObjCSel => "ObjCSel",
        TypeKind::Complex => "Complex",
        TypeKind::Pointer => "Pointer",
        TypeKind::BlockPointer => "BlockPointer",
        TypeKind::LValueReference => "LValueReference",
        TypeKind::RValueReference => "RValueReference",
        TypeKind::Record => "Record",
        TypeKind::Enum => "Enum",
        TypeKind::Typedef => "Typedef",
        TypeKind::ObjCInterface => "ObjCInterface",
        TypeKind::ObjCObjectPointer => "ObjCObjectPointer",
        TypeKind::FunctionNoProto => "FunctionNoProto",
        TypeKind::FunctionProto => "FunctionProto",
        TypeKind::ConstantArray => "ConstantArray",
        TypeKind::Vector => "Vector",
        TypeKind::IncompleteArray => "IncompleteArray",
        TypeKind::VariableArray => "VariableArray",
        TypeKind::DependentSizedArray => "DependentSizedArray",
        TypeKind::MemberPointer => "MemberPointer",
        TypeKind::Auto => "Auto",
        TypeKind::Elaborated => "Elaborated",
        TypeKind::Other(_) => "?",
    }
}

/// The TypeKind that stands for a native enumerator code.
pub open spec fn type_kind_of_code(c: u32) -> TypeKind {
    match c {
        0u32 => TypeKind::Invalid,
        1u32 => TypeKind::Unexposed,
        2u32 => TypeKind::Void,
        3u32 => TypeKind::Bool,
        4u32 => TypeKind::Char_U,
        5u32 => TypeKind::UChar,
        6u32 => TypeKind::Char16,
        7u32 => TypeKind::Char32,
        8u32 => TypeKind::UShort,
        9u32 => TypeKind::UInt,
        10u32 => TypeKind::ULong,
        11u32 => TypeKind::ULongLong,
        12u32 => TypeKind::UInt128,
        13u32 => TypeKind::Char_S,
        14u32 => TypeKind::SChar,
        15u32 => TypeKind::WChar,
        16u32 => TypeKind::Short,
        17u32 => TypeKind::Int,
        18u32 => TypeKind::Long,
        19u32 => TypeKind::LongLong,
        20u32 => TypeKind::Int128,
        21u32 => TypeKind::Float,
        22u32 => TypeKind::Double,
        23u32 => TypeKind::LongDouble,
        24u32 => TypeKind::NullPtr,
        25u32 => TypeKind::Overload,
        26u32 => TypeKind::Dependent,
        27u32 => TypeKind::ObjCId,
        28u32 => TypeKind::ObjCClass,
        29u32 => TypeKind::ObjCSel,
        100u32 => TypeKind::Complex,
        101u32 => TypeKind::Pointer,
        102u32 => TypeKind::BlockPointer,
        103u32 => TypeKind::LValueReference,
        104u32 => TypeKind::RValueReference,
        105u32 => TypeKind::Record,
        106u32 => TypeKind::Enum,
        107u32 => TypeKind::Typedef,
        108u32 => TypeKind::ObjCInterface,
        109u32 => TypeKind::ObjCObjectPointer,
        110u32 => TypeKind::FunctionNoProto,
        111u32 => TypeKind::FunctionProto,
        112u32 => TypeKind::ConstantArray,
        113u32 => TypeKind::Vector,
        114u32 => TypeKind::IncompleteArray,
        115u32 => TypeKind::VariableArray,
        116u32 => TypeKind::DependentSizedArray,
        117u32 => TypeKind::MemberPointer,
        118u32 => TypeKind::Auto,
        119u32 => TypeKind::Elaborated,
        _ => TypeKind::Other(c),
    }
}

pub fn type_kind_from_raw(c: u32) -> (r: TypeKind)
    ensures
        r == type_kind_of_code(c),
{
    match c {
        0u32 => TypeKind::Invalid,
        1u32 => TypeKind::Unexposed,
        2u32 => TypeKind::Void,
        3u32 => TypeKind::Bool,
        4u32 => TypeKind::Char_U,
        5u32 => TypeKind::UChar,
        6u32 => TypeKind::Char16,
        7u32 => TypeKind::Char32,
        8u32 => TypeKind::UShort,
        9u32 => TypeKind::UInt,
        10u32 => TypeKind::ULong,
        11u32 => TypeKind::ULongLong,
        12u32 => TypeKind::UInt128,
        13u32 => TypeKind::Char_S,
        14u32 => TypeKind::SChar,
        15u32 => TypeKind::WChar,
        16u32 => TypeKind::Short,
        17u32 => TypeKind::Int,
        18u32 => TypeKind::Long,
        19u32 => TypeKind::LongLong,
        20u32 => TypeKind::Int128,
        21u32 => TypeKind::Float,
        22u32 => TypeKind::Double,
        23u32 => TypeKind::LongDouble,
        24u32 => TypeKind::NullPtr,
        25u32 => TypeKind::Overload,
        26u32 => TypeKind::Dependent,
        27u32 => TypeKind::ObjCId,
        28u32 => TypeKind::ObjCClass,
        29u32 => TypeKind::ObjCSel,
        100u32 => TypeKind::Complex,
        101u32 => TypeKind::Pointer,
        102u32 => TypeKind::BlockPointer,
        103u32 => TypeKind::LValueReference,
        104u32 => TypeKind::RValueReference,
        105u32 => TypeKind::Record,
        106u32 => TypeKind::Enum,
        107u32 => TypeKind::Typedef,
        108u32 => TypeKind::ObjCInterface,
        109u32 => TypeKind::ObjCObjectPointer,
        110u32 => TypeKind::FunctionNoProto,
        111u32 => TypeKind::FunctionProto,
        112u32 => TypeKind::ConstantArray,
        113u32 => TypeKind::Vector,
        114u32 => TypeKind::IncompleteArray,
        115u32 => TypeKind::VariableArray,
        116u32 => TypeKind::DependentSizedArray,
        117u32 => TypeKind::MemberPointer,
        118u32 => TypeKind::Auto,
        119u32 => TypeKind::Elaborated,
        _ => TypeKind::Other(c),
    }
}

/// The linkage classification of a declaration.
#[derive(Clone, Copy, Debug, PartialEq, Eq, Structural)]
pub enum LinkageKind {
    Invalid,
    NoLinkage,
    Internal,
    UniqueExternal,
    External,
    /// An enumerator of the native taxonomy that this table does not name.
    Other(u32),
}

/// The LinkageKind that stands for a native enumerator code.
pub open spec fn linkage_of_code(c: u32) -> LinkageKind {
    match c {
        0u32 => LinkageKind::Invalid,
        1u32 => LinkageKind::NoLinkage,
        2u32 => LinkageKind::Internal,
        3u32 => LinkageKind::UniqueExternal,
        4u32 => LinkageKind::External,
        _ => LinkageKind::Other(c),
    }
}

pub fn linkage_from_raw(c: u32) -> (r: LinkageKind)
    ensures
        r == linkage_of_code(c),
{
    match c {
        0u32 => LinkageKind::Invalid,
        1u32 => LinkageKind::NoLinkage,
        2u32 => LinkageKind::Internal,
        3u32 => LinkageKind::UniqueExternal,
        4u32 => LinkageKind::External,
        _ => LinkageKind::Other(c),
    }
}

/// The symbol-visibility classification of a declaration.
#[derive(Clone, Copy, Debug, PartialEq, Eq, Structural)]
pub enum VisibilityKind {
    Invalid,
    Hidden,
    Protected,
    DefaultVisibility,
    /// An enumerator of the native taxonomy that this table does not name.
    Other(u32),
}

/// The VisibilityKind that stands for a native enumerator code.
pub open spec fn visibility_of_code(c: u32) -> VisibilityKind {
    match c {
        0u32 => VisibilityKind::Invalid,
        1u32 => VisibilityKind::Hidden,
        2u32 => VisibilityKind::Protected,
        3u32 => VisibilityKind::DefaultVisibility,
        _ => VisibilityKind::Other(c),
    }
}

pub fn visibility_from_raw(c: u32) -> (r: VisibilityKind)
    ensures
        r == visibility_of_code(c),
{
    match c {
        0u32 => VisibilityKind::Invalid,
        1u32 => VisibilityKind::Hidden,
        2u32 => VisibilityKind::Protected,
        3u32 => VisibilityKind::DefaultVisibility,
        _ => VisibilityKind::Other(c),
    }
}

/// The C++ member access classification.
#[derive(Clone, Copy, Debug, PartialEq, Eq, Structural)]
pub enum AccessSpecifier {
    Invalid,
    Public,
    Protected,
    Private,
    /// An enumerator of the native taxonomy that this table does not name.
    Other(u32),
}

/// The AccessSpecifier that stands for a native enumerator code.
pub open spec fn access_of_code(c: u32) -> AccessSpecifier {
    match c {
        0u32 => AccessSpecifier::Invalid,
        1u32 => AccessSpecifier::Public,
        2u32 => AccessSpecifier::Protected,
        3u32 => AccessSpecifier::Private,
        _ => AccessSpecifier::Other(c),
    }
}

pub fn access_from_raw(c: u32) -> (r: AccessSpecifier)
    ensures
        r == access_of_code(c),
{
    match c {
        0u32 => AccessSpecifier::Invalid,
        1u32 => AccessSpecifier::Public,
        2u32 => AccessSpecifier::Protected,
        3u32 => AccessSpecifier::Private,
        _ => AccessSpecifier::Other(c),
    }
}

/// The kind of one template argument.
#[derive(Clone, Copy, Debug, PartialEq, Eq, Structural)]
pub enum TemplateArgumentKind {
    Null,
    Type,
    Declaration,
    NullPtr,
    Integral,
    Template,
    TemplateExpansion,
    Expression,
    Pack,
    Invalid,
    /// An enumerator of the native taxonomy that this table does not name.
    Other(u32),
}

/// The TemplateArgumentKind that stands for a native enumerator code.
pub open spec fn template_argument_of_code(c: u32) -> TemplateArgumentKind {
    match c {
        0u32 => TemplateArgumentKind::Null,
        1u32 => TemplateArgumentKind::Type,
        2u32 => TemplateArgumentKind::Declaration,
        3u32 => TemplateArgumentKind::NullPtr,
        4u32 => TemplateArgumentKind::Integral,
        5u32 => TemplateArgumentKind::Template,
        6u32 => TemplateArgumentKind::TemplateExpansion,
        7u32 => TemplateArgumentKind::Expression,
        8u32 => TemplateArgumentKind::Pack,
        9u32 => TemplateArgumentKind::Invalid,
        _ => TemplateArgumentKind::Other(c),
    }
}

pub fn template_argument_from_raw(c: u32) -> (r: TemplateArgumentKind)
    ensures
        r == template_argument_of_code(c),
{
    match c {
        0u32 => TemplateArgumentKind::Null,
        1u32 => TemplateArgumentKind::Type,
        2u32 => TemplateArgumentKind::Declaration,
        3u32 => TemplateArgumentKind::NullPtr,
        4u32 => TemplateArgumentKind::Integral,
        5u32 => TemplateArgumentKind::Template,
        6u32 => TemplateArgumentKind::TemplateExpansion,
        7u32 => TemplateArgumentKind::Expression,
        8u32 => TemplateArgumentKind::Pack,
        9u32 => TemplateArgumentKind::Invalid,
        _ => TemplateArgumentKind::Other(c),
    }
}

/// The severity classification of one compiler finding. This taxonomy
/// is closed: the native enumeration has exactly these five codes, so
/// unlike the large node and type taxonomies it carries no fallback,
/// and every stored severity is one of the five classes.
#[derive(Clone, Copy, Debug, PartialEq, Eq, Structural)]
pub enum DiagnosticSeverity {
    Ignored,
    Note,
    Warning,
    Error,
    Fatal,
}

/// The severity that stands for a native enumerator code, where the
/// code names one; an unknown code has no representation.
pub open spec fn severity_of_code(c: u32) -> Option<DiagnosticSeverity> {
    match c {
        0u32 => Some(DiagnosticSeverity::Ignored),
        1u32 => Some(DiagnosticSeverity::Note),
        2u32 => Some(DiagnosticSeverity::Warning),
        3u32 => Some(DiagnosticSeverity::Error),
        4u32 => Some(DiagnosticSeverity::Fatal),
        _ => None,
    }
}

pub fn severity_from_raw(c: u32) -> (r: Option<DiagnosticSeverity>)
    ensures
        r == severity_of_code(c),
{
    match c {
        0u32 => Some(DiagnosticSeverity::Ignored),
        1u32 => Some(DiagnosticSeverity::Note),
        2u32 => Some(DiagnosticSeverity::Warning),
        3u32 => Some(DiagnosticSeverity::Error),
        4u32 => Some(DiagnosticSeverity::Fatal),
        _ => None,
    }
}

/// The calling-convention classification of a function type.
#[derive(Clone, Copy, Debug, PartialEq, Eq, Structural)]
pub enum CallingConv {
    DefaultConv,
    C,
    X86StdCall,
    X86FastCall,
    X86ThisCall,
    X86Pascal,
    AAPCS,
    AAPCSVfp,
    X86RegCall,
    IntelOclBicc,
    Win64,
    X86SysV64,
    X86VectorCall,
    Swift,
    PreserveMost,
    PreserveAll,
    AArch64VectorCall,
    Invalid,
    Unexposed,
    /// An enumerator of the native taxonomy that this table does not name.
    Other(u32),
}

/// The CallingConv that stands for a native enumerator code.
pub open spec fn calling_conv_of_code(c: u32) -> CallingConv {
    match c {
        0u32 => CallingConv::DefaultConv,
        1u32 => CallingConv::C,
        2u32 => CallingConv::X86StdCall,
        3u32 => CallingConv::X86FastCall,
        4u32 => CallingConv::X86ThisCall,
        5u32 => CallingConv::X86Pascal,
        6u32 => CallingConv::AAPCS,
        7u32 => CallingConv::AAPCSVfp,
        8u32 => CallingConv::X86RegCall,
        9u32 => CallingConv::IntelOclBicc,
        10u32 => CallingConv::Win64,
        11u32 => CallingConv::X86SysV64,
        12u32 => CallingConv::X86VectorCall,
        13u32 => CallingConv::Swift,
        14u32 => CallingConv::PreserveMost,
        15u32 => CallingConv::PreserveAll,
        16u32 => CallingConv::AArch64VectorCall,
        100u32 => CallingConv::Invalid,
        200u32 => CallingConv::Unexposed,
        _ => CallingConv::Other(c),
    }
}

pub fn calling_conv_from_raw(c: u32) -> (r: CallingConv)
    ensures
        r == calling_conv_of_code(c),
{
    match c {
        0u32 => CallingConv::DefaultConv,
        1u32 => CallingConv::C,
        2u32 => CallingConv::X86StdCall,
        3u32 => CallingConv::X86FastCall,
        4u32 => CallingConv::X86ThisCall,
        5u32 => CallingConv::X86Pascal,
        6u32 => CallingConv::AAPCS,
        7u32 => CallingConv::AAPCSVfp,
        8u32 => CallingConv::X86RegCall,
        9u32 => CallingConv::IntelOclBicc,
        10u32 => CallingConv::Win64,
        11u32 => CallingConv::X86SysV64,
        12u32 => CallingConv::X86VectorCall,
        13u32 => CallingConv::Swift,
        14u32 => CallingConv::PreserveMost,
        15u32 => CallingConv::PreserveAll,
        16u32 => CallingConv::AArch64VectorCall,
        100u32 => CallingConv::Invalid,
        200u32 => CallingConv::Unexposed,
        _ => CallingConv::Other(c),
    }
}

/// The kind of one documentation-comment node.
#[derive(Clone, Copy, Debug, PartialEq, Eq, Structural)]
pub enum CommentKind {
    Null,
    Text,
    InlineCommand,
    HTMLStartTag,
    HTMLEndTag,
    Paragraph,
    BlockCommand,
    ParamCommand,
    TParamCommand,
    VerbatimBlockCommand,
    VerbatimBlockLine,
    VerbatimLine,
    FullComment,
    /// An enumerator of the native taxonomy that this table does not name.
    Other(u32),
}

/// The CommentKind that stands for a native enumerator code.
pub open spec fn comment_kind_of_code(c: u32) -> CommentKind {
    match c {
        0u32 => CommentKind::Null,
        1u32 => CommentKind::Text,
        2u32 => CommentKind::InlineCommand,
        3u32 => CommentKind::HTMLStartTag,
        4u32 => CommentKind::HTMLEndTag,
        5u32 => CommentKind::Paragraph,
        6u32 => CommentKind::BlockCommand,
        7u32 => CommentKind::ParamCommand,
        8u32 => CommentKind::TParamCommand,
        9u32 => CommentKind::VerbatimBlockCommand,
        10u32 => CommentKind::VerbatimBlockLine,
        11u32 => CommentKind::VerbatimLine,
        12u32 => CommentKind::FullComment,
        _ => CommentKind::Other(c),
    }
}

pub fn comment_kind_from_raw(c: u32) -> (r: CommentKind)
    ensures
        r == comment_kind_of_code(c),
{
    match c {
        0u32 => CommentKind::Null,
        1u32 => CommentKind::Text,
        2u32 => CommentKind::InlineCommand,
        3u32 => CommentKind::HTMLStartTag,
        4u32 => CommentKind::HTMLEndTag,
        5u32 => CommentKind::Paragraph,
        6u32 => CommentKind::BlockCommand,
        7u32 => CommentKind::ParamCommand,
        8u32 => CommentKind::TParamCommand,
        9u32 => CommentKind::VerbatimBlockCommand,
        10u32 => CommentKind::VerbatimBlockLine,
        11u32 => CommentKind::VerbatimLine,
        12u32 => CommentKind::FullComment,
        _ => CommentKind::Other(c),
    }
}

/// The kind of one lexical token.
#[derive(Clone, Copy, Debug, PartialEq, Eq, Structural)]
pub enum TokenKind {
    Punctuation,
    Keyword,
    Identifier,
    Literal,
    Comment,
}

/// The token kind that stands for a native enumerator code, where the
/// code names one; the token taxonomy is closed, so an unknown code has
/// no representation.
pub open spec fn token_kind_of_code(c: u32) -> Option<TokenKind> {
    match c {
        0u32 => Some(TokenKind::Punctuation),
        1u32 => Some(TokenKind::Keyword),
        2u32 => Some(TokenKind::Identifier),
        3u32 => Some(TokenKind::Literal),
        4u32 => Some(TokenKind::Comment),
        _ => None,
    }
}

pub fn token_kind_from_raw(c: u32) -> (r: Option<TokenKind>)
    ensures
        r == token_kind_of_code(c),
{
    match c {
        0u32 => Some(TokenKind::Punctuation),
        1u32 => Some(TokenKind::Keyword),
        2u32 => Some(TokenKind::Identifier),
        3u32 => Some(TokenKind::Literal),
        4u32 => Some(TokenKind::Comment),
        _ => None,
    }
}

/// The per-node answer of a traversal visitor: abort the whole walk,
/// move to the next sibling, or descend into the child's subtree first.
#[derive(Clone, Copy, Debug, PartialEq, Eq, Structural)]
pub enum ChildVisitResult {
    Break,
    Continue,
    Recurse,
}

/// The closed set of reasons a type's layout cannot be computed.
#[derive(Clone, Copy, Debug, PartialEq, Eq, Structural)]
pub enum LayoutError {
    Invalid,
    Incomplete,
    Dependent,
    NotConstantSize,
    InvalidFieldName,
}

} // verus!
