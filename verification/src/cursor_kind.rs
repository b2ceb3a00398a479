//! The kinds of AST element that a cursor can reference, with the number of
//! each kind and the categories that the kinds fall into.

use vstd::prelude::*;

verus! {

/// Indicates the type of AST element a cursor references.
#[derive(Copy, Clone, Debug, PartialEq, Eq, Hash, Structural)]
pub enum CursorKind {
    /// A declaration whose specific type is not exposed via this interface.
    UnexposedDecl,
    /// A C or C++ struct.
    StructDecl,
    /// A C or C++ union.
    UnionDecl,
    /// A C++ class.
    ClassDecl,
    /// An enum.
    EnumDecl,
    /// A C field or C++ non-static data member in a struct, union, or class.
    FieldDecl,
    /// An enum constant.
    EnumConstantDecl,
    /// A function.
    FunctionDecl,
    /// A variable.
    VarDecl,
    /// A parameter.
    ParmDecl,
    /// An Objective-C `@interface`.
    ObjCInterfaceDecl,
    /// An Objective-C `@interface` for a category.
    ObjCCategoryDecl,
    /// An Objective-C `@protocol` declaration.
    ObjCProtocolDecl,
    /// An Objective-C `@property` declaration.
    ObjCPropertyDecl,
    /// An Objective-C instance variable.
    ObjCIvarDecl,
    /// An Objective-C instance method.
    ObjCInstanceMethodDecl,
    /// An Objective-C class method.
    ObjCClassMethodDecl,
    /// An Objective-C `@implementation`.
    ObjCImplementationDecl,
    /// An Objective-C `@implementation` for a category.
    ObjCCategoryImplDecl,
    /// A typedef.
    TypedefDecl,
    /// A C++ method.
    Method,
    /// A C++ namespace.
    Namespace,
    /// A linkage specification (e.g., `extern "C"`).
    LinkageSpec,
    /// A C++ constructor.
    Constructor,
    /// A C++ destructor.
    Destructor,
    /// A C++ conversion function.
    ConversionFunction,
    /// A C++ template type parameter.
    TemplateTypeParameter,
    /// A C++ template non-type parameter.
    NonTypeTemplateParameter,
    /// A C++ template template parameter.
    TemplateTemplateParameter,
    /// A C++ function template.
    FunctionTemplate,
    /// A C++ class template.
    ClassTemplate,
    /// A C++ class template partial specialization.
    ClassTemplatePartialSpecialization,
    /// A C++ namespace alias declaration.
    NamespaceAlias,
    /// A C++ using directive.
    UsingDirective,
    /// A C++ using declaration.
    UsingDeclaration,
    /// A C++ type alias declaration.
    TypeAliasDecl,
    /// An Objective-C `@synthesize` definition.
    ObjCSynthesizeDecl,
    /// An Objective-C `@dynamic` definition.
    ObjCDynamicDecl,
    /// An access specifier.
    AccessSpecifier,
    ObjCSuperClassRef,
    ObjCProtocolRef,
    ObjCClassRef,
    /// A reference to a type declaration.
    TypeRef,
    BaseSpecifier,
    /// A reference to a class template, function template, template template parameter, or class
    /// template partial specialization.
    TemplateRef,
    /// A reference to a namespace or namespace alias.
    NamespaceRef,
    /// A reference to a member of a struct, union, or class that occurs in some non-expression
    /// context.
    MemberRef,
    /// A reference to a labeled statement.
    LabelRef,
    /// A reference to a set of overloaded functions or function templates that has not yet been
    /// resolved to a specific function or function template.
    OverloadedDeclRef,
    /// A reference to a variable that occurs in some non-expression context.
    VariableRef,
    /// An expression whose specific kind is not exposed via this interface.
    UnexposedExpr,
    /// An expression that refers to some value declaration, such as a function or enumerator.
    DeclRefExpr,
    /// An expression that refers to the member of a struct, union, or class.
    MemberRefExpr,
    /// An expression that calls a function.
    CallExpr,
    /// An expression that sends a message to an Objective-C object or class.
    ObjCMessageExpr,
    /// An expression that represents a block literal.
    BlockExpr,
    /// An integer literal.
    IntegerLiteral,
    /// A floating point number literal.
    FloatingLiteral,
    /// An imaginary number literal.
    ImaginaryLiteral,
    /// A string literal.
    StringLiteral,
    /// A character literal.
    CharacterLiteral,
    /// A parenthesized expression.
    ParenExpr,
    /// Any unary expression other than `sizeof` and `alignof`.
    UnaryOperator,
    /// An array subscript expression (`[C99 6.5.2.1]`).
    ArraySubscriptExpr,
    /// A built-in binary expression (e.g., `x + y`).
    BinaryOperator,
    /// A compound assignment expression (e.g., `x += y`).
    CompoundAssignOperator,
    /// A ternary expression.
    ConditionalOperator,
    /// An explicit cast in C or a C-style cast in C++.
    CStyleCastExpr,
    /// A compound literal expression (`[C99 6.5.2.5]`).
    CompoundLiteralExpr,
    /// A C or C++ initializer list.
    InitListExpr,
    /// A GNU address of label expression.
    AddrLabelExpr,
    /// A GNU statement expression.
    StmtExpr,
    /// A C11 generic selection expression.
    GenericSelectionExpr,
    /// A GNU `__null` expression.
    GNUNullExpr,
    /// A C++ `static_cast<>` expression.
    StaticCastExpr,
    /// A C++ `dynamic_cast<>` expression.
    DynamicCastExpr,
    /// A C++ `reinterpret_cast<>` expression.
    ReinterpretCastExpr,
    /// A C++ `const_cast<>` expression.
    ConstCastExpr,
    /// A C++ cast that uses "function" notation (e.g., `int(0.5)`).
    FunctionalCastExpr,
    /// A C++ `typeid` expression.
    TypeidExpr,
    /// A C++ boolean literal.
    BoolLiteralExpr,
    /// A C++ `nullptr` exrepssion.
    NullPtrLiteralExpr,
    /// A C++ `this` expression.
    ThisExpr,
    /// A C++ `throw` expression.
    ThrowExpr,
    /// A C++ `new` expression.
    NewExpr,
    /// A C++ `delete` expression.
    DeleteExpr,
    /// A unary expression.
    UnaryExpr,
    /// An Objective-C string literal.
    ObjCStringLiteral,
    /// An Objective-C `@encode` expression.
    ObjCEncodeExpr,
    /// An Objective-C `@selector` expression.
    ObjCSelectorExpr,
    /// An Objective-C `@protocol` expression.
    ObjCProtocolExpr,
    /// An Objective-C bridged cast expression.
    ObjCBridgedCastExpr,
    /// A C++11 parameter pack expansion expression.
    PackExpansionExpr,
    /// A C++11 `sizeof...` expression.
    SizeOfPackExpr,
    /// A C++11 lambda expression.
    LambdaExpr,
    /// An Objective-C boolean literal.
    ObjCBoolLiteralExpr,
    /// An Objective-C `self` expression.
    ObjCSelfExpr,
    /// A statement whose specific kind is not exposed via this interface.
    UnexposedStmt,
    /// A labelled statement in a function.
    LabelStmt,
    /// A group of statements (e.g., a function body).
    CompoundStmt,
    /// A `case` statement.
    CaseStmt,
    /// A `default` statement.
    DefaultStmt,
    /// An `if` statement.
    IfStmt,
    /// A `switch` statement.
    SwitchStmt,
    /// A `while` statement.
    WhileStmt,
    /// A `do` statement.
    DoStmt,
    /// A `for` statement.
    ForStmt,
    /// A `goto` statement.
    GotoStmt,
    /// An indirect `goto` statement.
    IndirectGotoStmt,
    /// A `continue` statement.
    ContinueStmt,
    /// A `break` statement.
    BreakStmt,
    /// A `return` statement.
    ReturnStmt,
    /// An inline assembly statement.
    AsmStmt,
    /// An Objective-C `@try`-`@catch`-`@finally` statement.
    ObjCAtTryStmt,
    /// An Objective-C `@catch` statement.
    ObjCAtCatchStmt,
    /// An Objective-C `@finally` statement.
    ObjCAtFinallyStmt,
    /// An Objective-C `@throw` statement.
    ObjCAtThrowStmt,
    /// An Objective-C `@synchronized` statement.
    ObjCAtSynchronizedStmt,
    /// An Objective-C autorelease pool statement.
    ObjCAutoreleasePoolStmt,
    /// An Objective-C collection statement.
    ObjCForCollectionStmt,
    /// A C++ catch statement.
    CatchStmt,
    /// A C++ try statement.
    TryStmt,
    /// A C++11 range-based for statement.
    ForRangeStmt,
    /// A Windows Structured Exception Handling `__try` statement.
    SehTryStmt,
    /// A Windows Structured Exception Handling `__except` statement.
    SehExceptStmt,
    /// A Windows Structured Exception Handling `__finally` statement.
    SehFinallyStmt,
    /// A Windows Structured Exception Handling `__leave` statement.
    SehLeaveStmt,
    /// A Microsoft inline assembly statement.
    MsAsmStmt,
    /// A null statement.
    NullStmt,
    /// An adaptor for mixing declarations with statements and expressions.
    DeclStmt,
    /// An OpenMP parallel directive.
    OmpParallelDirective,
    /// An OpenMP SIMD directive.
    OmpSimdDirective,
    /// An OpenMP for directive.
    OmpForDirective,
    /// An OpenMP sections directive.
    OmpSectionsDirective,
    /// An OpenMP section directive.
    OmpSectionDirective,
    /// An OpenMP single directive.
    OmpSingleDirective,
    /// An OpenMP parallel for directive.
    OmpParallelForDirective,
    /// An OpenMP parallel sections directive.
    OmpParallelSectionsDirective,
    /// An OpenMP task directive.
    OmpTaskDirective,
    /// An OpenMP master directive.
    OmpMasterDirective,
    /// An OpenMP critical directive.
    OmpCriticalDirective,
    /// An OpenMP taskyield directive.
    OmpTaskyieldDirective,
    /// An OpenMP barrier directive.
    OmpBarrierDirective,
    /// An OpenMP taskwait directive.
    OmpTaskwaitDirective,
    /// An OpenMP flush directive.
    OmpFlushDirective,
    /// An OpenMP ordered directive.
    OmpOrderedDirective,
    /// An OpenMP atomic directive.
    OmpAtomicDirective,
    /// An OpenMP for SIMD directive.
    OmpForSimdDirective,
    /// An OpenMP parallel for SIMD directive.
    OmpParallelForSimdDirective,
    /// An OpenMP target directive.
    OmpTargetDirective,
    /// An OpenMP teams directive.
    OmpTeamsDirective,
    /// An OpenMP taskgroup directive.
    OmpTaskgroupDirective,
    /// An OpenMP cancellation point directive.
    OmpCancellationPointDirective,
    /// An OpenMP cancel directive.
    OmpCancelDirective,
    /// The top-level AST element which acts as the root for the other elements.
    TranslationUnit,
    /// An attribute whose specific kind is not exposed via this interface.
    UnexposedAttr,
    IBActionAttr,
    IBOutletAttr,
    IBOutletCollectionAttr,
    FinalAttr,
    OverrideAttr,
    AnnotateAttr,
    AsmLabelAttr,
    PackedAttr,
    PureAttr,
    ConstAttr,
    NoDuplicateAttr,
    CudaConstantAttr,
    CudaDeviceAttr,
    CudaGlobalAttr,
    CudaHostAttr,
    CudaSharedAttr,
    PreprocessingDirective,
    MacroDefinition,
    MacroExpansion,
    InclusionDirective,
    ModuleImportDecl,
    OverloadCandidate,
}

impl CursorKind {
    /// The number by which the frontend denotes this value.
    pub open spec fn code(self) -> i32 {
        match self {
            CursorKind::UnexposedDecl => 1i32,
            CursorKind::StructDecl => 2i32,
            CursorKind::UnionDecl => 3i32,
            CursorKind::ClassDecl => 4i32,
            CursorKind::EnumDecl => 5i32,
            CursorKind::FieldDecl => 6i32,
            CursorKind::EnumConstantDecl => 7i32,
            CursorKind::FunctionDecl => 8i32,
            CursorKind::VarDecl => 9i32,
            CursorKind::ParmDecl => 10i32,
            CursorKind::ObjCInterfaceDecl => 11i32,
            CursorKind::ObjCCategoryDecl => 12i32,
            CursorKind::ObjCProtocolDecl => 13i32,
            CursorKind::ObjCPropertyDecl => 14i32,
            CursorKind::ObjCIvarDecl => 15i32,
            CursorKind::ObjCInstanceMethodDecl => 16i32,
            CursorKind::ObjCClassMethodDecl => 17i32,
            CursorKind::ObjCImplementationDecl => 18i32,
            CursorKind::ObjCCategoryImplDecl => 19i32,
            CursorKind::TypedefDecl => 20i32,
            CursorKind::Method => 21i32,
            CursorKind::Namespace => 22i32,
            CursorKind::LinkageSpec => 23i32,
            CursorKind::Constructor => 24i32,
            CursorKind::Destructor => 25i32,
            CursorKind::ConversionFunction => 26i32,
            CursorKind::TemplateTypeParameter => 27i32,
            CursorKind::NonTypeTemplateParameter => 28i32,
            CursorKind::TemplateTemplateParameter => 29i32,
            CursorKind::FunctionTemplate => 30i32,
            CursorKind::ClassTemplate => 31i32,
            CursorKind::ClassTemplatePartialSpecialization => 32i32,
            CursorKind::NamespaceAlias => 33i32,
            CursorKind::UsingDirective => 34i32,
            CursorKind::UsingDeclaration => 35i32,
            CursorKind::TypeAliasDecl => 36i32,
            CursorKind::ObjCSynthesizeDecl => 37i32,
            CursorKind::ObjCDynamicDecl => 38i32,
            CursorKind::AccessSpecifier => 39i32,
            CursorKind::ObjCSuperClassRef => 40i32,
            CursorKind::ObjCProtocolRef => 41i32,
            CursorKind::ObjCClassRef => 42i32,
            CursorKind::TypeRef => 43i32,
            CursorKind::BaseSpecifier => 44i32,
            CursorKind::TemplateRef => 45i32,
            CursorKind::NamespaceRef => 46i32,
            CursorKind::MemberRef => 47i32,
            CursorKind::LabelRef => 48i32,
            CursorKind::OverloadedDeclRef => 49i32,
            CursorKind::VariableRef => 50i32,
            CursorKind::UnexposedExpr => 100i32,
            CursorKind::DeclRefExpr => 101i32,
            CursorKind::MemberRefExpr => 102i32,
            CursorKind::CallExpr => 103i32,
            CursorKind::ObjCMessageExpr => 104i32,
            CursorKind::BlockExpr => 105i32,
            CursorKind::IntegerLiteral => 106i32,
            CursorKind::FloatingLiteral => 107i32,
            CursorKind::ImaginaryLiteral => 108i32,
            CursorKind::StringLiteral => 109i32,
            CursorKind::CharacterLiteral => 110i32,
            CursorKind::ParenExpr => 111i32,
            CursorKind::UnaryOperator => 112i32,
            CursorKind::ArraySubscriptExpr => 113i32,
            CursorKind::BinaryOperator => 114i32,
            CursorKind::CompoundAssignOperator => 115i32,
            CursorKind::ConditionalOperator => 116i32,
            CursorKind::CStyleCastExpr => 117i32,
            CursorKind::CompoundLiteralExpr => 118i32,
            CursorKind::InitListExpr => 119i32,
            CursorKind::AddrLabelExpr => 120i32,
            CursorKind::StmtExpr => 121i32,
            CursorKind::GenericSelectionExpr => 122i32,
            CursorKind::GNUNullExpr => 123i32,
            CursorKind::StaticCastExpr => 124i32,
            CursorKind::DynamicCastExpr => 125i32,
            CursorKind::ReinterpretCastExpr => 126i32,
            CursorKind::ConstCastExpr => 127i32,
            CursorKind::FunctionalCastExpr => 128i32,
            CursorKind::TypeidExpr => 129i32,
            CursorKind::BoolLiteralExpr => 130i32,
            CursorKind::NullPtrLiteralExpr => 131i32,
            CursorKind::ThisExpr => 132i32,
            CursorKind::ThrowExpr => 133i32,
            CursorKind::NewExpr => 134i32,
            CursorKind::DeleteExpr => 135i32,
            CursorKind::UnaryExpr => 136i32,
            CursorKind::ObjCStringLiteral => 137i32,
            CursorKind::ObjCEncodeExpr => 138i32,
            CursorKind::ObjCSelectorExpr => 139i32,
            CursorKind::ObjCProtocolExpr => 140i32,
            CursorKind::ObjCBridgedCastExpr => 141i32,
            CursorKind::PackExpansionExpr => 142i32,
            CursorKind::SizeOfPackExpr => 143i32,
            CursorKind::LambdaExpr => 144i32,
            CursorKind::ObjCBoolLiteralExpr => 145i32,
            CursorKind::ObjCSelfExpr => 146i32,
            CursorKind::UnexposedStmt => 200i32,
            CursorKind::LabelStmt => 201i32,
            CursorKind::CompoundStmt => 202i32,
            CursorKind::CaseStmt => 203i32,
            CursorKind::DefaultStmt => 204i32,
            CursorKind::IfStmt => 205i32,
            CursorKind::SwitchStmt => 206i32,
            CursorKind::WhileStmt => 207i32,
            CursorKind::DoStmt => 208i32,
            CursorKind::ForStmt => 209i32,
            CursorKind::GotoStmt => 210i32,
            CursorKind::IndirectGotoStmt => 211i32,
            CursorKind::ContinueStmt => 212i32,
            CursorKind::BreakStmt => 213i32,
            CursorKind::ReturnStmt => 214i32,
            CursorKind::AsmStmt => 215i32,
            CursorKind::ObjCAtTryStmt => 216i32,
            CursorKind::ObjCAtCatchStmt => 217i32,
            CursorKind::ObjCAtFinallyStmt => 218i32,
            CursorKind::ObjCAtThrowStmt => 219i32,
            CursorKind::ObjCAtSynchronizedStmt => 220i32,
            CursorKind::ObjCAutoreleasePoolStmt => 221i32,
            CursorKind::ObjCForCollectionStmt => 222i32,
            CursorKind::CatchStmt => 223i32,
            CursorKind::TryStmt => 224i32,
            CursorKind::ForRangeStmt => 225i32,
            CursorKind::SehTryStmt => 226i32,
            CursorKind::SehExceptStmt => 227i32,
            CursorKind::SehFinallyStmt => 228i32,
            CursorKind::SehLeaveStmt => 247i32,
            CursorKind::MsAsmStmt => 229i32,
            CursorKind::NullStmt => 230i32,
            CursorKind::DeclStmt => 231i32,
            CursorKind::OmpParallelDirective => 232i32,
            CursorKind::OmpSimdDirective => 233i32,
            CursorKind::OmpForDirective => 234i32,
            CursorKind::OmpSectionsDirective => 235i32,
            CursorKind::OmpSectionDirective => 236i32,
            CursorKind::OmpSingleDirective => 237i32,
            CursorKind::OmpParallelForDirective => 238i32,
            CursorKind::OmpParallelSectionsDirective => 239i32,
            CursorKind::OmpTaskDirective => 240i32,
            CursorKind::OmpMasterDirective => 241i32,
            CursorKind::OmpCriticalDirective => 242i32,
            CursorKind::OmpTaskyieldDirective => 243i32,
            CursorKind::OmpBarrierDirective => 244i32,
            CursorKind::OmpTaskwaitDirective => 245i32,
            CursorKind::OmpFlushDirective => 246i32,
            CursorKind::OmpOrderedDirective => 248i32,
            CursorKind::OmpAtomicDirective => 249i32,
            CursorKind::OmpForSimdDirective => 250i32,
            CursorKind::OmpParallelForSimdDirective => 251i32,
            CursorKind::OmpTargetDirective => 252i32,
            CursorKind::OmpTeamsDirective => 253i32,
            CursorKind::OmpTaskgroupDirective => 254i32,
            CursorKind::OmpCancellationPointDirective => 255i32,
            CursorKind::OmpCancelDirective => 256i32,
            CursorKind::TranslationUnit => 300i32,
            CursorKind::UnexposedAttr => 400i32,
            CursorKind::IBActionAttr => 401i32,
            CursorKind::IBOutletAttr => 402i32,
            CursorKind::IBOutletCollectionAttr => 403i32,
            CursorKind::FinalAttr => 404i32,
            CursorKind::OverrideAttr => 405i32,
            CursorKind::AnnotateAttr => 406i32,
            CursorKind::AsmLabelAttr => 407i32,
            CursorKind::PackedAttr => 408i32,
            CursorKind::PureAttr => 409i32,
            CursorKind::ConstAttr => 410i32,
            CursorKind::NoDuplicateAttr => 411i32,
            CursorKind::CudaConstantAttr => 412i32,
            CursorKind::CudaDeviceAttr => 413i32,
            CursorKind::CudaGlobalAttr => 414i32,
            CursorKind::CudaHostAttr => 415i32,
            CursorKind::CudaSharedAttr => 416i32,
            CursorKind::PreprocessingDirective => 500i32,
            CursorKind::MacroDefinition => 501i32,
            CursorKind::MacroExpansion => 502i32,
            CursorKind::InclusionDirective => 503i32,
            CursorKind::ModuleImportDecl => 600i32,
            CursorKind::OverloadCandidate => 700i32,
        }
    }

    /// Returns the number by which the frontend denotes this value.
    pub fn to_code(&self) -> (code: i32)
        ensures
            code == self.code(),
    {
        match self {
            CursorKind::UnexposedDecl => 1i32,
            CursorKind::StructDecl => 2i32,
            CursorKind::UnionDecl => 3i32,
            CursorKind::ClassDecl => 4i32,
            CursorKind::EnumDecl => 5i32,
            CursorKind::FieldDecl => 6i32,
            CursorKind::EnumConstantDecl => 7i32,
            CursorKind::FunctionDecl => 8i32,
            CursorKind::VarDecl => 9i32,
            CursorKind::ParmDecl => 10i32,
            CursorKind::ObjCInterfaceDecl => 11i32,
            CursorKind::ObjCCategoryDecl => 12i32,
            CursorKind::ObjCProtocolDecl => 13i32,
            CursorKind::ObjCPropertyDecl => 14i32,
            CursorKind::ObjCIvarDecl => 15i32,
            CursorKind::ObjCInstanceMethodDecl => 16i32,
            CursorKind::ObjCClassMethodDecl => 17i32,
            CursorKind::ObjCImplementationDecl => 18i32,
            CursorKind::ObjCCategoryImplDecl => 19i32,
            CursorKind::TypedefDecl => 20i32,
            CursorKind::Method => 21i32,
            CursorKind::Namespace => 22i32,
            CursorKind::LinkageSpec => 23i32,
            CursorKind::Constructor => 24i32,
            CursorKind::Destructor => 25i32,
            CursorKind::ConversionFunction => 26i32,
            CursorKind::TemplateTypeParameter => 27i32,
            CursorKind::NonTypeTemplateParameter => 28i32,
            CursorKind::TemplateTemplateParameter => 29i32,
            CursorKind::FunctionTemplate => 30i32,
            CursorKind::ClassTemplate => 31i32,
            CursorKind::ClassTemplatePartialSpecialization => 32i32,
            CursorKind::NamespaceAlias => 33i32,
            CursorKind::UsingDirective => 34i32,
            CursorKind::UsingDeclaration => 35i32,
            CursorKind::TypeAliasDecl => 36i32,
            CursorKind::ObjCSynthesizeDecl => 37i32,
            CursorKind::ObjCDynamicDecl => 38i32,
            CursorKind::AccessSpecifier => 39i32,
            CursorKind::ObjCSuperClassRef => 40i32,
            CursorKind::ObjCProtocolRef => 41i32,
            CursorKind::ObjCClassRef => 42i32,
            CursorKind::TypeRef => 43i32,
            CursorKind::BaseSpecifier => 44i32,
            CursorKind::TemplateRef => 45i32,
            CursorKind::NamespaceRef => 46i32,
            CursorKind::MemberRef => 47i32,
            CursorKind::LabelRef => 48i32,
            CursorKind::OverloadedDeclRef => 49i32,
            CursorKind::VariableRef => 50i32,
            CursorKind::UnexposedExpr => 100i32,
            CursorKind::DeclRefExpr => 101i32,
            CursorKind::MemberRefExpr => 102i32,
            CursorKind::CallExpr => 103i32,
            CursorKind::ObjCMessageExpr => 104i32,
            CursorKind::BlockExpr => 105i32,
            CursorKind::IntegerLiteral => 106i32,
            CursorKind::FloatingLiteral => 107i32,
            CursorKind::ImaginaryLiteral => 108i32,
            CursorKind::StringLiteral => 109i32,
            CursorKind::CharacterLiteral => 110i32,
            CursorKind::ParenExpr => 111i32,
            CursorKind::UnaryOperator => 112i32,
            CursorKind::ArraySubscriptExpr => 113i32,
            CursorKind::BinaryOperator => 114i32,
            CursorKind::CompoundAssignOperator => 115i32,
            CursorKind::ConditionalOperator => 116i32,
            CursorKind::CStyleCastExpr => 117i32,
            CursorKind::CompoundLiteralExpr => 118i32,
            CursorKind::InitListExpr => 119i32,
            CursorKind::AddrLabelExpr => 120i32,
            CursorKind::StmtExpr => 121i32,
            CursorKind::GenericSelectionExpr => 122i32,
            CursorKind::GNUNullExpr => 123i32,
            CursorKind::StaticCastExpr => 124i32,
            CursorKind::DynamicCastExpr => 125i32,
            CursorKind::ReinterpretCastExpr => 126i32,
            CursorKind::ConstCastExpr => 127i32,
            CursorKind::FunctionalCastExpr => 128i32,
            CursorKind::TypeidExpr => 129i32,
            CursorKind::BoolLiteralExpr => 130i32,
            CursorKind::NullPtrLiteralExpr => 131i32,
            CursorKind::ThisExpr => 132i32,
            CursorKind::ThrowExpr => 133i32,
            CursorKind::NewExpr => 134i32,
            CursorKind::DeleteExpr => 135i32,
            CursorKind::UnaryExpr => 136i32,
            CursorKind::ObjCStringLiteral => 137i32,
            CursorKind::ObjCEncodeExpr => 138i32,
            CursorKind::ObjCSelectorExpr => 139i32,
            CursorKind::ObjCProtocolExpr => 140i32,
            CursorKind::ObjCBridgedCastExpr => 141i32,
            CursorKind::PackExpansionExpr => 142i32,
            CursorKind::SizeOfPackExpr => 143i32,
            CursorKind::LambdaExpr => 144i32,
            CursorKind::ObjCBoolLiteralExpr => 145i32,
            CursorKind::ObjCSelfExpr => 146i32,
            CursorKind::UnexposedStmt => 200i32,
            CursorKind::LabelStmt => 201i32,
            CursorKind::CompoundStmt => 202i32,
            CursorKind::CaseStmt => 203i32,
            CursorKind::DefaultStmt => 204i32,
            CursorKind::IfStmt => 205i32,
            CursorKind::SwitchStmt => 206i32,
            CursorKind::WhileStmt => 207i32,
            CursorKind::DoStmt => 208i32,
            CursorKind::ForStmt => 209i32,
            CursorKind::GotoStmt => 210i32,
            CursorKind::IndirectGotoStmt => 211i32,
            CursorKind::ContinueStmt => 212i32,
            CursorKind::BreakStmt => 213i32,
            CursorKind::ReturnStmt => 214i32,
            CursorKind::AsmStmt => 215i32,
            CursorKind::ObjCAtTryStmt => 216i32,
            CursorKind::ObjCAtCatchStmt => 217i32,
            CursorKind::ObjCAtFinallyStmt => 218i32,
            CursorKind::ObjCAtThrowStmt => 219i32,
            CursorKind::ObjCAtSynchronizedStmt => 220i32,
            CursorKind::ObjCAutoreleasePoolStmt => 221i32,
            CursorKind::ObjCForCollectionStmt => 222i32,
            CursorKind::CatchStmt => 223i32,
            CursorKind::TryStmt => 224i32,
            CursorKind::ForRangeStmt => 225i32,
            CursorKind::SehTryStmt => 226i32,
            CursorKind::SehExceptStmt => 227i32,
            CursorKind::SehFinallyStmt => 228i32,
            CursorKind::SehLeaveStmt => 247i32,
            CursorKind::MsAsmStmt => 229i32,
            CursorKind::NullStmt => 230i32,
            CursorKind::DeclStmt => 231i32,
            CursorKind::OmpParallelDirective => 232i32,
            CursorKind::OmpSimdDirective => 233i32,
            CursorKind::OmpForDirective => 234i32,
            CursorKind::OmpSectionsDirective => 235i32,
            CursorKind::OmpSectionDirective => 236i32,
            CursorKind::OmpSingleDirective => 237i32,
            CursorKind::OmpParallelForDirective => 238i32,
            CursorKind::OmpParallelSectionsDirective => 239i32,
            CursorKind::OmpTaskDirective => 240i32,
            CursorKind::OmpMasterDirective => 241i32,
            CursorKind::OmpCriticalDirective => 242i32,
            CursorKind::OmpTaskyieldDirective => 243i32,
            CursorKind::OmpBarrierDirective => 244i32,
            CursorKind::OmpTaskwaitDirective => 245i32,
            CursorKind::OmpFlushDirective => 246i32,
            CursorKind::OmpOrderedDirective => 248i32,
            CursorKind::OmpAtomicDirective => 249i32,
            CursorKind::OmpForSimdDirective => 250i32,
            CursorKind::OmpParallelForSimdDirective => 251i32,
            CursorKind::OmpTargetDirective => 252i32,
            CursorKind::OmpTeamsDirective => 253i32,
            CursorKind::OmpTaskgroupDirective => 254i32,
            CursorKind::OmpCancellationPointDirective => 255i32,
            CursorKind::OmpCancelDirective => 256i32,
            CursorKind::TranslationUnit => 300i32,
            CursorKind::UnexposedAttr => 400i32,
            CursorKind::IBActionAttr => 401i32,
            CursorKind::IBOutletAttr => 402i32,
            CursorKind::IBOutletCollectionAttr => 403i32,
            CursorKind::FinalAttr => 404i32,
            CursorKind::OverrideAttr => 405i32,
            CursorKind::AnnotateAttr => 406i32,
            CursorKind::AsmLabelAttr => 407i32,
            CursorKind::PackedAttr => 408i32,
            CursorKind::PureAttr => 409i32,
            CursorKind::ConstAttr => 410i32,
            CursorKind::NoDuplicateAttr => 411i32,
            CursorKind::CudaConstantAttr => 412i32,
            CursorKind::CudaDeviceAttr => 413i32,
            CursorKind::CudaGlobalAttr => 414i32,
            CursorKind::CudaHostAttr => 415i32,
            CursorKind::CudaSharedAttr => 416i32,
            CursorKind::PreprocessingDirective => 500i32,
            CursorKind::MacroDefinition => 501i32,
            CursorKind::MacroExpansion => 502i32,
            CursorKind::InclusionDirective => 503i32,
            CursorKind::ModuleImportDecl => 600i32,
            CursorKind::OverloadCandidate => 700i32,
        }
    }

    /// Whether `code` is the number of a cursor kind.
    pub open spec fn known(code: i32) -> bool {
        1 <= code <= 50 || 100 <= code <= 146 || 200 <= code <= 256 || code == 300 || 400 <= code
            <= 416 || 500 <= code <= 503 || code == 600 || code == 700
    }

    /// Decodes the number by which the frontend denotes a cursor kind: the
    /// value with that number, or nothing where no value has it.
    pub fn from_code(code: i32) -> (r: Option<CursorKind>)
        ensures
            r.is_some() <==> Self::known(code),
            r.is_some() ==> r.unwrap().code() == code,
    {
        match code {
            1i32 => Some(CursorKind::UnexposedDecl),
            2i32 => Some(CursorKind::StructDecl),
            3i32 => Some(CursorKind::UnionDecl),
            4i32 => Some(CursorKind::ClassDecl),
            5i32 => Some(CursorKind::EnumDecl),
            6i32 => Some(CursorKind::FieldDecl),
            7i32 => Some(CursorKind::EnumConstantDecl),
            8i32 => Some(CursorKind::FunctionDecl),
            9i32 => Some(CursorKind::VarDecl),
            10i32 => Some(CursorKind::ParmDecl),
            11i32 => Some(CursorKind::ObjCInterfaceDecl),
            12i32 => Some(CursorKind::ObjCCategoryDecl),
            13i32 => Some(CursorKind::ObjCProtocolDecl),
            14i32 => Some(CursorKind::ObjCPropertyDecl),
            15i32 => Some(CursorKind::ObjCIvarDecl),
            16i32 => Some(CursorKind::ObjCInstanceMethodDecl),
            17i32 => Some(CursorKind::ObjCClassMethodDecl),
            18i32 => Some(CursorKind::ObjCImplementationDecl),
            19i32 => Some(CursorKind::ObjCCategoryImplDecl),
            20i32 => Some(CursorKind::TypedefDecl),
            21i32 => Some(CursorKind::Method),
            22i32 => Some(CursorKind::Namespace),
            23i32 => Some(CursorKind::LinkageSpec),
            24i32 => Some(CursorKind::Constructor),
            25i32 => Some(CursorKind::Destructor),
            26i32 => Some(CursorKind::ConversionFunction),
            27i32 => Some(CursorKind::TemplateTypeParameter),
            28i32 => Some(CursorKind::NonTypeTemplateParameter),
            29i32 => Some(CursorKind::TemplateTemplateParameter),
            30i32 => Some(CursorKind::FunctionTemplate),
            31i32 => Some(CursorKind::ClassTemplate),
            32i32 => Some(CursorKind::ClassTemplatePartialSpecialization),
            33i32 => Some(CursorKind::NamespaceAlias),
            34i32 => Some(CursorKind::UsingDirective),
            35i32 => Some(CursorKind::UsingDeclaration),
            36i32 => Some(CursorKind::TypeAliasDecl),
            37i32 => Some(CursorKind::ObjCSynthesizeDecl),
            38i32 => Some(CursorKind::ObjCDynamicDecl),
            39i32 => Some(CursorKind::AccessSpecifier),
            40i32 => Some(CursorKind::ObjCSuperClassRef),
            41i32 => Some(CursorKind::ObjCProtocolRef),
            42i32 => Some(CursorKind::ObjCClassRef),
            43i32 => Some(CursorKind::TypeRef),
            44i32 => Some(CursorKind::BaseSpecifier),
            45i32 => Some(CursorKind::TemplateRef),
            46i32 => Some(CursorKind::NamespaceRef),
            47i32 => Some(CursorKind::MemberRef),
            48i32 => Some(CursorKind::LabelRef),
            49i32 => Some(CursorKind::OverloadedDeclRef),
            50i32 => Some(CursorKind::VariableRef),
            100i32 => Some(CursorKind::UnexposedExpr),
            101i32 => Some(CursorKind::DeclRefExpr),
            102i32 => Some(CursorKind::MemberRefExpr),
            103i32 => Some(CursorKind::CallExpr),
            104i32 => Some(CursorKind::ObjCMessageExpr),
            105i32 => Some(CursorKind::BlockExpr),
            106i32 => Some(CursorKind::IntegerLiteral),
            107i32 => Some(CursorKind::FloatingLiteral),
            108i32 => Some(CursorKind::ImaginaryLiteral),
            109i32 => Some(CursorKind::StringLiteral),
            110i32 => Some(CursorKind::CharacterLiteral),
            111i32 => Some(CursorKind::ParenExpr),
            112i32 => Some(CursorKind::UnaryOperator),
            113i32 => Some(CursorKind::ArraySubscriptExpr),
            114i32 => Some(CursorKind::BinaryOperator),
            115i32 => Some(CursorKind::CompoundAssignOperator),
            116i32 => Some(CursorKind::ConditionalOperator),
            117i32 => Some(CursorKind::CStyleCastExpr),
            118i32 => Some(CursorKind::CompoundLiteralExpr),
            119i32 => Some(CursorKind::InitListExpr),
            120i32 => Some(CursorKind::AddrLabelExpr),
            121i32 => Some(CursorKind::StmtExpr),
            122i32 => Some(CursorKind::GenericSelectionExpr),
            123i32 => Some(CursorKind::GNUNullExpr),
            124i32 => Some(CursorKind::StaticCastExpr),
            125i32 => Some(CursorKind::DynamicCastExpr),
            126i32 => Some(CursorKind::ReinterpretCastExpr),
            127i32 => Some(CursorKind::ConstCastExpr),
            128i32 => Some(CursorKind::FunctionalCastExpr),
            129i32 => Some(CursorKind::TypeidExpr),
            130i32 => Some(CursorKind::BoolLiteralExpr),
            131i32 => Some(CursorKind::NullPtrLiteralExpr),
            132i32 => Some(CursorKind::ThisExpr),
            133i32 => Some(CursorKind::ThrowExpr),
            134i32 => Some(CursorKind::NewExpr),
            135i32 => Some(CursorKind::DeleteExpr),
            136i32 => Some(CursorKind::UnaryExpr),
            137i32 => Some(CursorKind::ObjCStringLiteral),
            138i32 => Some(CursorKind::ObjCEncodeExpr),
            139i32 => Some(CursorKind::ObjCSelectorExpr),
            140i32 => Some(CursorKind::ObjCProtocolExpr),
            141i32 => Some(CursorKind::ObjCBridgedCastExpr),
            142i32 => Some(CursorKind::PackExpansionExpr),
            143i32 => Some(CursorKind::SizeOfPackExpr),
            144i32 => Some(CursorKind::LambdaExpr),
            145i32 => Some(CursorKind::ObjCBoolLiteralExpr),
            146i32 => Some(CursorKind::ObjCSelfExpr),
            200i32 => Some(CursorKind::UnexposedStmt),
            201i32 => Some(CursorKind::LabelStmt),
            202i32 => Some(CursorKind::CompoundStmt),
            203i32 => Some(CursorKind::CaseStmt),
            204i32 => Some(CursorKind::DefaultStmt),
            205i32 => Some(CursorKind::IfStmt),
            206i32 => Some(CursorKind::SwitchStmt),
            207i32 => Some(CursorKind::WhileStmt),
            208i32 => Some(CursorKind::DoStmt),
            209i32 => Some(CursorKind::ForStmt),
            210i32 => Some(CursorKind::GotoStmt),
            211i32 => Some(CursorKind::IndirectGotoStmt),
            212i32 => Some(CursorKind::ContinueStmt),
            213i32 => Some(CursorKind::BreakStmt),
            214i32 => Some(CursorKind::ReturnStmt),
            215i32 => Some(CursorKind::AsmStmt),
            216i32 => Some(CursorKind::ObjCAtTryStmt),
            217i32 => Some(CursorKind::ObjCAtCatchStmt),
            218i32 => Some(CursorKind::ObjCAtFinallyStmt),
            219i32 => Some(CursorKind::ObjCAtThrowStmt),
            220i32 => Some(CursorKind::ObjCAtSynchronizedStmt),
            221i32 => Some(CursorKind::ObjCAutoreleasePoolStmt),
            222i32 => Some(CursorKind::ObjCForCollectionStmt),
            223i32 => Some(CursorKind::CatchStmt),
            224i32 => Some(CursorKind::TryStmt),
            225i32 => Some(CursorKind::ForRangeStmt),
            226i32 => Some(CursorKind::SehTryStmt),
            227i32 => Some(CursorKind::SehExceptStmt),
            228i32 => Some(CursorKind::SehFinallyStmt),
            229i32 => Some(CursorKind::MsAsmStmt),
            230i32 => Some(CursorKind::NullStmt),
            231i32 => Some(CursorKind::DeclStmt),
            232i32 => Some(CursorKind::OmpParallelDirective),
            233i32 => Some(CursorKind::OmpSimdDirective),
            234i32 => Some(CursorKind::OmpForDirective),
            235i32 => Some(CursorKind::OmpSectionsDirective),
            236i32 => Some(CursorKind::OmpSectionDirective),
            237i32 => Some(CursorKind::OmpSingleDirective),
            238i32 => Some(CursorKind::OmpParallelForDirective),
            239i32 => Some(CursorKind::OmpParallelSectionsDirective),
            240i32 => Some(CursorKind::OmpTaskDirective),
            241i32 => Some(CursorKind::OmpMasterDirective),
            242i32 => Some(CursorKind::OmpCriticalDirective),
            243i32 => Some(CursorKind::OmpTaskyieldDirective),
            244i32 => Some(CursorKind::OmpBarrierDirective),
            245i32 => Some(CursorKind::OmpTaskwaitDirective),
            246i32 => Some(CursorKind::OmpFlushDirective),
            247i32 => Some(CursorKind::SehLeaveStmt),
            248i32 => Some(CursorKind::OmpOrderedDirective),
            249i32 => Some(CursorKind::OmpAtomicDirective),
            250i32 => Some(CursorKind::OmpForSimdDirective),
            251i32 => Some(CursorKind::OmpParallelForSimdDirective),
            252i32 => Some(CursorKind::OmpTargetDirective),
            253i32 => Some(CursorKind::OmpTeamsDirective),
            254i32 => Some(CursorKind::OmpTaskgroupDirective),
            255i32 => Some(CursorKind::OmpCancellationPointDirective),
            256i32 => Some(CursorKind::OmpCancelDirective),
            300i32 => Some(CursorKind::TranslationUnit),
            400i32 => Some(CursorKind::UnexposedAttr),
            401i32 => Some(CursorKind::IBActionAttr),
            402i32 => Some(CursorKind::IBOutletAttr),
            403i32 => Some(CursorKind::IBOutletCollectionAttr),
            404i32 => Some(CursorKind::FinalAttr),
            405i32 => Some(CursorKind::OverrideAttr),
            406i32 => Some(CursorKind::AnnotateAttr),
            407i32 => Some(CursorKind::AsmLabelAttr),
            408i32 => Some(CursorKind::PackedAttr),
            409i32 => Some(CursorKind::PureAttr),
            410i32 => Some(CursorKind::ConstAttr),
            411i32 => Some(CursorKind::NoDuplicateAttr),
            412i32 => Some(CursorKind::CudaConstantAttr),
            413i32 => Some(CursorKind::CudaDeviceAttr),
            414i32 => Some(CursorKind::CudaGlobalAttr),
            415i32 => Some(CursorKind::CudaHostAttr),
            416i32 => Some(CursorKind::CudaSharedAttr),
            500i32 => Some(CursorKind::PreprocessingDirective),
            501i32 => Some(CursorKind::MacroDefinition),
            502i32 => Some(CursorKind::MacroExpansion),
            503i32 => Some(CursorKind::InclusionDirective),
            600i32 => Some(CursorKind::ModuleImportDecl),
            700i32 => Some(CursorKind::OverloadCandidate),
            _ => None,
        }
    }

    /// Every value has a known number.
    pub proof fn lemma_code_known(k: CursorKind)
        ensures
            Self::known(k.code()),
    {
    }

    /// Two values with one number are equal.
    pub proof fn lemma_code_injective(a: CursorKind, b: CursorKind)
        requires
            a.code() == b.code(),
        ensures
            a == b,
    {
    }

    /// Whether the kind with number `code` is categorized as an attribute.
    pub open spec fn attribute_code(code: i32) -> bool {
        400 <= code <= 416
    }

    /// Returns whether this cursor kind is categorized as an attribute.
    pub fn is_attribute(&self) -> (r: bool)
        ensures
            r == Self::attribute_code(self.code()),
    {
        let code: i32 = self.to_code();
        400 <= code && code <= 416
    }

    /// Whether the kind with number `code` is categorized as a declaration.
    pub open spec fn declaration_code(code: i32) -> bool {
        1 <= code <= 39 || code == 600
    }

    /// Returns whether this cursor kind is categorized as a declaration.
    pub fn is_declaration(&self) -> (r: bool)
        ensures
            r == Self::declaration_code(self.code()),
    {
        let code: i32 = self.to_code();
        (1 <= code && code <= 39) || code == 600
    }

    /// Whether the kind with number `code` is categorized as an expression.
    pub open spec fn expression_code(code: i32) -> bool {
        100 <= code <= 146
    }

    /// Returns whether this cursor kind is categorized as an expression.
    pub fn is_expression(&self) -> (r: bool)
        ensures
            r == Self::expression_code(self.code()),
    {
        let code: i32 = self.to_code();
        100 <= code && code <= 146
    }

    /// Whether the kind with number `code` is categorized as preprocessing.
    pub open spec fn preprocessing_code(code: i32) -> bool {
        500 <= code <= 503
    }

    /// Returns whether this cursor kind is categorized as preprocessing.
    pub fn is_preprocessing(&self) -> (r: bool)
        ensures
            r == Self::preprocessing_code(self.code()),
    {
        let code: i32 = self.to_code();
        500 <= code && code <= 503
    }

    /// Whether the kind with number `code` is categorized as a reference.
    pub open spec fn reference_code(code: i32) -> bool {
        40 <= code <= 50
    }

    /// Returns whether this cursor kind is categorized as a reference.
    pub fn is_reference(&self) -> (r: bool)
        ensures
            r == Self::reference_code(self.code()),
    {
        let code: i32 = self.to_code();
        40 <= code && code <= 50
    }

    /// Whether the kind with number `code` is categorized as a statement.
    pub open spec fn statement_code(code: i32) -> bool {
        200 <= code <= 256
    }

    /// Returns whether this cursor kind is categorized as a statement.
    pub fn is_statement(&self) -> (r: bool)
        ensures
            r == Self::statement_code(self.code()),
    {
        let code: i32 = self.to_code();
        200 <= code && code <= 256
    }

    /// Whether the kind with number `code` is categorized as unexposed.
    pub open spec fn unexposed_code(code: i32) -> bool {
        code == 1 || code == 100 || code == 200 || code == 400
    }

    /// Returns whether this cursor kind is categorized as unexposed.
    pub fn is_unexposed(&self) -> (r: bool)
        ensures
            r == Self::unexposed_code(self.code()),
    {
        let code: i32 = self.to_code();
        code == 1 || code == 100 || code == 200 || code == 400
    }

    /// How many of the six disjoint categories hold the kind with number `code`.
    pub open spec fn category_count(code: i32) -> int {
        (if Self::attribute_code(code) { 1int } else { 0 })
            + (if Self::declaration_code(code) { 1int } else { 0 })
            + (if Self::expression_code(code) { 1int } else { 0 })
            + (if Self::preprocessing_code(code) { 1int } else { 0 })
            + (if Self::reference_code(code) { 1int } else { 0 })
            + (if Self::statement_code(code) { 1int } else { 0 })
    }

    /// Every kind but the translation unit and the overload candidate falls
    /// into exactly one of the six categories, those two fall into none, and
    /// an unexposed kind is the first kind of its category.
    pub proof fn lemma_categories(k: CursorKind)
        ensures
            k != CursorKind::TranslationUnit && k != CursorKind::OverloadCandidate
                ==> Self::category_count(k.code()) == 1,
            k == CursorKind::TranslationUnit || k == CursorKind::OverloadCandidate
                ==> Self::category_count(k.code()) == 0,
            Self::unexposed_code(k.code()) <==> (k == CursorKind::UnexposedDecl || k
                == CursorKind::UnexposedExpr || k == CursorKind::UnexposedStmt || k
                == CursorKind::UnexposedAttr),
    {
    }
}

} // verus!
