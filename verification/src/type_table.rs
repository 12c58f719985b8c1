//! The kind table of the supported grammar: every concrete-syntax node kind,
//! its numbering, its display string, and the per-language interning of kinds
//! into a compact tagged value.
//!
//! Two synthetic kinds extend the grammar's own table: `Spaces`, the
//! zero-semantic kind given to whitespace runs materialised between siblings,
//! and `Directory`, the kind of directory roots above file trees.

use vstd::prelude::*;

verus! {

/// One past the largest canonical kind number.
pub const COUNT: u16 = 340;

/// High bits of an interned kind: the language tag.
pub const LANG_MASK: u16 = 0b1100_0000_0000_0000;

/// Low bits of an interned kind: the canonical kind number.
pub const KIND_MASK: u16 = 0b0011_1111_1111_1111;

/// A node kind of the syntax trees this library stores and diffs.
#[derive(Clone, Copy, PartialEq, Eq, Hash, Debug, Structural)]
pub enum Type {
    End,
    Identifier,
    HashBangLine,
    Export,
    Star,
    Default,
    Type,
    Eq,
    As,
    Namespace,
    LBrace,
    Comma,
    RBrace,
    Typeof,
    Import,
    From,
    Var,
    Let,
    Const,
    Bang,
    Else,
    If,
    Switch,
    For,
    LParen,
    RParen,
    Await,
    In,
    Of,
    While,
    Do,
    Try,
    With,
    Break,
    Continue,
    Debugger,
    Return,
    Throw,
    SemiColon,
    Colon,
    Case,
    Catch,
    Finally,
    Yield,
    LBracket,
    RBracket,
    LT,
    GT,
    Slash,
    Dot,
    Class,
    Async,
    Function,
    TS0,
    TS1,
    New,
    PlusEq,
    DashEq,
    StarEq,
    SlashEq,
    PercentEq,
    CaretEq,
    AmpEq,
    PipeEq,
    GtGtEq,
    GtGtGtEq,
    LtLtEq,
    TS2,
    TS3,
    TS4,
    TS5,
    DotDotDot,
    AmpAmp,
    PipePipe,
    GtGt,
    GtGtGt,
    LtLt,
    Amp,
    Caret,
    Pipe,
    Plus,
    Dash,
    Percent,
    TS6,
    LTEq,
    EqEq,
    TS7,
    BangEq,
    TS8,
    GTEq,
    TS9,
    Instanceof,
    Tilde,
    Void,
    Delete,
    PlusPlus,
    DashDash,
    TS10,
    TS11,
    StringFragment,
    EscapeSequence,
    Comment,
    TS12,
    TS13,
    RegexPattern,
    RegexFlags,
    Number,
    PrivatePropertyIdentifier,
    Target,
    This,
    Super,
    True,
    False,
    Null,
    Undefined,
    At,
    Static,
    Readonly,
    Get,
    SetKw,
    QMark,
    Declare,
    Public,
    Private,
    Protected,
    Override,
    Module,
    Any,
    Boolean,
    String,
    Symbol,
    Abstract,
    Require,
    Extends,
    Implements,
    Global,
    Interface,
    Enum,
    TS14,
    TS15,
    Asserts,
    Infer,
    Is,
    Keyof,
    Unknown,
    Never,
    Object,
    TS16,
    TS17,
    TS18,
    TS19,
    TS20,
    Program,
    ExportStatement,
    ExportClause,
    ExportSpecifier,
    Declaration,
    ImportStatement,
    ImportClause,
    TS21,
    NamespaceImport,
    NamedImports,
    ExpressionStatement,
    VariableDeclaration,
    LexicalDeclaration,
    VariableDeclarator,
    StatementBlock,
    ElseClause,
    IfStatement,
    SwitchStatement,
    ForStatement,
    ForInStatement,
    TS22,
    WhileStatement,
    DoStatement,
    TryStatement,
    WithStatement,
    BreakStatement,
    ContinueStatement,
    DebuggerStatement,
    ReturnStatement,
    ThrowStatement,
    EmptyStatement,
    LabeledStatement,
    SwitchBody,
    SwitchCase,
    SwitchDefault,
    CatchClause,
    FinallyClause,
    ParenthesizedExpression,
    Expression,
    PrimaryExpression,
    YieldExpression,
    ObjectPattern,
    AssignmentPattern,
    ObjectAssignmentPattern,
    Array,
    ArrayPattern,
    NestedIdentifier,
    ClassDeclaration,
    ClassHeritage,
    FunctionDeclaration,
    GeneratorFunction,
    GeneratorFunctionDeclaration,
    ArrowFunction,
    TS23,
    TS24,
    CallExpression,
    NewExpression,
    AwaitExpression,
    MemberExpression,
    SubscriptExpression,
    AssignmentExpression,
    TS25,
    AugmentedAssignmentExpression,
    TS26,
    TS27,
    SpreadElement,
    TernaryExpression,
    BinaryExpression,
    UnaryExpression,
    UpdateExpression,
    SequenceExpression,
    TemplateString,
    TemplateSubstitution,
    Regex,
    MetaProperty,
    Arguments,
    Decorator,
    ClassBody,
    FormalParameters,
    Pattern,
    RestPattern,
    MethodDefinition,
    Pair,
    PairPattern,
    TS28,
    ComputedPropertyName,
    PublicFieldDefinition,
    NonNullExpression,
    MethodSignature,
    AbstractMethodSignature,
    FunctionSignature,
    TypeAssertion,
    AsExpression,
    ImportRequireClause,
    ExtendsClause,
    ImplementsClause,
    AmbientDeclaration,
    AbstractClassDeclaration,
    InternalModule,
    TS29,
    ImportAlias,
    NestedTypeIdentifier,
    InterfaceDeclaration,
    ExtendsTypeClause,
    EnumDeclaration,
    EnumBody,
    EnumAssignment,
    TypeAliasDeclaration,
    AccessibilityModifier,
    OverrideModifier,
    RequiredParameter,
    OptionalParameter,
    TS30,
    OmittingTypeAnnotation,
    OptingTypeAnnotation,
    TypeAnnotation,
    TS31,
    OptionalType,
    RestType,
    TS32,
    ConstructorType,
    PrimaryType,
    TemplateType,
    TemplateLiteralType,
    InferType,
    ConditionalType,
    GenericType,
    TypePredicate,
    TypePredicateAnnotation,
    TypeQuery,
    IndexTypeQuery,
    LookupType,
    MappedTypeClause,
    LiteralType,
    ExistentialType,
    FlowMaybeType,
    ParenthesizedType,
    PredefinedType,
    TypeArguments,
    ObjectType,
    CallSignature,
    PropertySignature,
    TypeParameters,
    TypeParameter,
    DefaultType,
    Constraint,
    ConstructSignature,
    IndexSignature,
    ArrayType,
    TupleType,
    ReadonlyType,
    UnionType,
    IntersectionType,
    FunctionType,
    ProgramRepeat1,
    ExportStatementRepeat1,
    ExportClauseRepeat1,
    NamedImportsRepeat1,
    VariableDeclarationRepeat1,
    SwitchBodyRepeat1,
    ObjectRepeat1,
    ObjectPatternRepeat1,
    ArrayRepeat1,
    ArrayPatternRepeat1,
    StringRepeat1,
    StringRepeat2,
    TemplateStringRepeat1,
    ClassBodyRepeat1,
    FormalParametersRepeat1,
    ExtendsClauseRepeat1,
    ImplementsClauseRepeat1,
    ExtendsTypeClauseRepeat1,
    EnumBodyRepeat1,
    TemplateLiteralTypeRepeat1,
    ObjectTypeRepeat1,
    TypeParametersRepeat1,
    TupleTypeRepeat1,
    ImportSpecifier,
    NamespaceExport,
    PropertyIdentifier,
    ShorthandPropertyIdentifier,
    ShorthandPropertyIdentifierPattern,
    StatementIdentifier,
    ThisType,
    TypeIdentifier,
    Spaces,
    Directory,
    ERROR,
}

/// The kind that the grammar's numbering assigns to `t`; kinds the grammar
/// emits under several numbers appear here under each of them.
pub open spec fn type_of_u16(t: u16) -> Type {
    match t {
        0u16 => Type::End,
        1u16 => Type::Identifier,
        2u16 => Type::HashBangLine,
        3u16 => Type::Export,
        4u16 => Type::Star,
        5u16 => Type::Default,
        6u16 => Type::Type,
        7u16 => Type::Eq,
        8u16 => Type::As,
        9u16 => Type::Namespace,
        10u16 => Type::LBrace,
        11u16 => Type::Comma,
        12u16 => Type::RBrace,
        13u16 => Type::Typeof,
        14u16 => Type::Import,
        15u16 => Type::From,
        16u16 => Type::Var,
        17u16 => Type::Let,
        18u16 => Type::Const,
        19u16 => Type::Bang,
        20u16 => Type::Else,
        21u16 => Type::If,
        22u16 => Type::Switch,
        23u16 => Type::For,
        24u16 => Type::LParen,
        25u16 => Type::RParen,
        26u16 => Type::Await,
        27u16 => Type::In,
        28u16 => Type::Of,
        29u16 => Type::While,
        30u16 => Type::Do,
        31u16 => Type::Try,
        32u16 => Type::With,
        33u16 => Type::Break,
        34u16 => Type::Continue,
        35u16 => Type::Debugger,
        36u16 => Type::Return,
        37u16 => Type::Throw,
        38u16 => Type::SemiColon,
        39u16 => Type::Colon,
        40u16 => Type::Case,
        41u16 => Type::Catch,
        42u16 => Type::Finally,
        43u16 => Type::Yield,
        44u16 => Type::LBracket,
        45u16 => Type::RBracket,
        46u16 => Type::LT,
        47u16 => Type::GT,
        48u16 => Type::Slash,
        49u16 => Type::Dot,
        50u16 => Type::Class,
        51u16 => Type::Async,
        52u16 => Type::Function,
        53u16 => Type::TS0,
        54u16 => Type::TS1,
        55u16 => Type::New,
        56u16 => Type::PlusEq,
        57u16 => Type::DashEq,
        58u16 => Type::StarEq,
        59u16 => Type::SlashEq,
        60u16 => Type::PercentEq,
        61u16 => Type::CaretEq,
        62u16 => Type::AmpEq,
        63u16 => Type::PipeEq,
        64u16 => Type::GtGtEq,
        65u16 => Type::GtGtGtEq,
        66u16 => Type::LtLtEq,
        67u16 => Type::TS2,
        68u16 => Type::TS3,
        69u16 => Type::TS4,
        70u16 => Type::TS5,
        71u16 => Type::DotDotDot,
        72u16 => Type::AmpAmp,
        73u16 => Type::PipePipe,
        74u16 => Type::GtGt,
        75u16 => Type::GtGtGt,
        76u16 => Type::LtLt,
        77u16 => Type::Amp,
        78u16 => Type::Caret,
        79u16 => Type::Pipe,
        80u16 => Type::Plus,
        81u16 => Type::Dash,
        82u16 => Type::Percent,
        83u16 => Type::TS6,
        84u16 => Type::LTEq,
        85u16 => Type::EqEq,
        86u16 => Type::TS7,
        87u16 => Type::BangEq,
        88u16 => Type::TS8,
        89u16 => Type::GTEq,
        90u16 => Type::TS9,
        91u16 => Type::Instanceof,
        92u16 => Type::Tilde,
        93u16 => Type::Void,
        94u16 => Type::Delete,
        95u16 => Type::PlusPlus,
        96u16 => Type::DashDash,
        97u16 => Type::TS10,
        98u16 => Type::TS11,
        99u16 => Type::StringFragment,
        100u16 => Type::StringFragment,
        101u16 => Type::EscapeSequence,
        102u16 => Type::Comment,
        103u16 => Type::TS12,
        104u16 => Type::TS13,
        105u16 => Type::Slash,
        106u16 => Type::RegexPattern,
        107u16 => Type::RegexFlags,
        108u16 => Type::Number,
        109u16 => Type::PrivatePropertyIdentifier,
        110u16 => Type::Target,
        111u16 => Type::This,
        112u16 => Type::Super,
        113u16 => Type::True,
        114u16 => Type::False,
        115u16 => Type::Null,
        116u16 => Type::Undefined,
        117u16 => Type::At,
        118u16 => Type::Static,
        119u16 => Type::Readonly,
        120u16 => Type::Get,
        121u16 => Type::SetKw,
        122u16 => Type::QMark,
        123u16 => Type::Declare,
        124u16 => Type::Public,
        125u16 => Type::Private,
        126u16 => Type::Protected,
        127u16 => Type::Override,
        128u16 => Type::Module,
        129u16 => Type::Any,
        130u16 => Type::Number,
        131u16 => Type::Boolean,
        132u16 => Type::String,
        133u16 => Type::Symbol,
        134u16 => Type::Abstract,
        135u16 => Type::Require,
        136u16 => Type::Extends,
        137u16 => Type::Implements,
        138u16 => Type::Global,
        139u16 => Type::Interface,
        140u16 => Type::Enum,
        141u16 => Type::TS14,
        142u16 => Type::TS15,
        143u16 => Type::Asserts,
        144u16 => Type::Infer,
        145u16 => Type::Is,
        146u16 => Type::Keyof,
        147u16 => Type::Unknown,
        148u16 => Type::Never,
        149u16 => Type::Object,
        150u16 => Type::TS16,
        151u16 => Type::TS17,
        152u16 => Type::TS18,
        153u16 => Type::TS19,
        154u16 => Type::QMark,
        155u16 => Type::TS20,
        156u16 => Type::Program,
        157u16 => Type::ExportStatement,
        158u16 => Type::ExportClause,
        159u16 => Type::ExportSpecifier,
        160u16 => Type::Declaration,
        161u16 => Type::Import,
        162u16 => Type::ImportStatement,
        163u16 => Type::ImportClause,
        164u16 => Type::TS21,
        165u16 => Type::NamespaceImport,
        166u16 => Type::NamedImports,
        167u16 => Type::ExpressionStatement,
        168u16 => Type::VariableDeclaration,
        169u16 => Type::LexicalDeclaration,
        170u16 => Type::VariableDeclarator,
        171u16 => Type::StatementBlock,
        172u16 => Type::ElseClause,
        173u16 => Type::IfStatement,
        174u16 => Type::SwitchStatement,
        175u16 => Type::ForStatement,
        176u16 => Type::ForInStatement,
        177u16 => Type::TS22,
        178u16 => Type::WhileStatement,
        179u16 => Type::DoStatement,
        180u16 => Type::TryStatement,
        181u16 => Type::WithStatement,
        182u16 => Type::BreakStatement,
        183u16 => Type::ContinueStatement,
        184u16 => Type::DebuggerStatement,
        185u16 => Type::ReturnStatement,
        186u16 => Type::ThrowStatement,
        187u16 => Type::EmptyStatement,
        188u16 => Type::LabeledStatement,
        189u16 => Type::SwitchBody,
        190u16 => Type::SwitchCase,
        191u16 => Type::SwitchDefault,
        192u16 => Type::CatchClause,
        193u16 => Type::FinallyClause,
        194u16 => Type::ParenthesizedExpression,
        195u16 => Type::Expression,
        196u16 => Type::PrimaryExpression,
        197u16 => Type::YieldExpression,
        198u16 => Type::Object,
        199u16 => Type::ObjectPattern,
        200u16 => Type::AssignmentPattern,
        201u16 => Type::ObjectAssignmentPattern,
        202u16 => Type::Array,
        203u16 => Type::ArrayPattern,
        204u16 => Type::NestedIdentifier,
        205u16 => Type::Class,
        206u16 => Type::ClassDeclaration,
        207u16 => Type::ClassHeritage,
        208u16 => Type::Function,
        209u16 => Type::FunctionDeclaration,
        210u16 => Type::GeneratorFunction,
        211u16 => Type::GeneratorFunctionDeclaration,
        212u16 => Type::ArrowFunction,
        213u16 => Type::TS23,
        214u16 => Type::TS24,
        215u16 => Type::CallExpression,
        216u16 => Type::NewExpression,
        217u16 => Type::AwaitExpression,
        218u16 => Type::MemberExpression,
        219u16 => Type::SubscriptExpression,
        220u16 => Type::AssignmentExpression,
        221u16 => Type::TS25,
        222u16 => Type::AugmentedAssignmentExpression,
        223u16 => Type::TS26,
        224u16 => Type::TS27,
        225u16 => Type::SpreadElement,
        226u16 => Type::TernaryExpression,
        227u16 => Type::BinaryExpression,
        228u16 => Type::UnaryExpression,
        229u16 => Type::UpdateExpression,
        230u16 => Type::SequenceExpression,
        231u16 => Type::String,
        232u16 => Type::TemplateString,
        233u16 => Type::TemplateSubstitution,
        234u16 => Type::Regex,
        235u16 => Type::MetaProperty,
        236u16 => Type::Arguments,
        237u16 => Type::Decorator,
        238u16 => Type::MemberExpression,
        239u16 => Type::CallExpression,
        240u16 => Type::ClassBody,
        241u16 => Type::FormalParameters,
        242u16 => Type::Pattern,
        243u16 => Type::RestPattern,
        244u16 => Type::MethodDefinition,
        245u16 => Type::Pair,
        246u16 => Type::PairPattern,
        247u16 => Type::TS28,
        248u16 => Type::ComputedPropertyName,
        249u16 => Type::PublicFieldDefinition,
        250u16 => Type::NonNullExpression,
        251u16 => Type::MethodSignature,
        252u16 => Type::AbstractMethodSignature,
        253u16 => Type::FunctionSignature,
        254u16 => Type::TypeAssertion,
        255u16 => Type::AsExpression,
        256u16 => Type::ImportRequireClause,
        257u16 => Type::ExtendsClause,
        258u16 => Type::ImplementsClause,
        259u16 => Type::AmbientDeclaration,
        260u16 => Type::AbstractClassDeclaration,
        261u16 => Type::Module,
        262u16 => Type::InternalModule,
        263u16 => Type::TS29,
        264u16 => Type::ImportAlias,
        265u16 => Type::NestedTypeIdentifier,
        266u16 => Type::InterfaceDeclaration,
        267u16 => Type::ExtendsTypeClause,
        268u16 => Type::EnumDeclaration,
        269u16 => Type::EnumBody,
        270u16 => Type::EnumAssignment,
        271u16 => Type::TypeAliasDeclaration,
        272u16 => Type::AccessibilityModifier,
        273u16 => Type::OverrideModifier,
        274u16 => Type::RequiredParameter,
        275u16 => Type::OptionalParameter,
        276u16 => Type::TS30,
        277u16 => Type::OmittingTypeAnnotation,
        278u16 => Type::OptingTypeAnnotation,
        279u16 => Type::TypeAnnotation,
        280u16 => Type::Asserts,
        281u16 => Type::TS31,
        282u16 => Type::RequiredParameter,
        283u16 => Type::OptionalParameter,
        284u16 => Type::OptionalType,
        285u16 => Type::RestType,
        286u16 => Type::TS32,
        287u16 => Type::ConstructorType,
        288u16 => Type::PrimaryType,
        289u16 => Type::TemplateType,
        290u16 => Type::TemplateLiteralType,
        291u16 => Type::InferType,
        292u16 => Type::ConditionalType,
        293u16 => Type::GenericType,
        294u16 => Type::TypePredicate,
        295u16 => Type::TypePredicateAnnotation,
        296u16 => Type::MemberExpression,
        297u16 => Type::SubscriptExpression,
        298u16 => Type::CallExpression,
        299u16 => Type::TypeQuery,
        300u16 => Type::IndexTypeQuery,
        301u16 => Type::LookupType,
        302u16 => Type::MappedTypeClause,
        303u16 => Type::LiteralType,
        304u16 => Type::UnaryExpression,
        305u16 => Type::ExistentialType,
        306u16 => Type::FlowMaybeType,
        307u16 => Type::ParenthesizedType,
        308u16 => Type::PredefinedType,
        309u16 => Type::TypeArguments,
        310u16 => Type::ObjectType,
        311u16 => Type::CallSignature,
        312u16 => Type::PropertySignature,
        313u16 => Type::TypeParameters,
        314u16 => Type::TypeParameter,
        315u16 => Type::DefaultType,
        316u16 => Type::Constraint,
        317u16 => Type::ConstructSignature,
        318u16 => Type::IndexSignature,
        319u16 => Type::ArrayType,
        320u16 => Type::TupleType,
        321u16 => Type::ReadonlyType,
        322u16 => Type::UnionType,
        323u16 => Type::IntersectionType,
        324u16 => Type::FunctionType,
        325u16 => Type::ProgramRepeat1,
        326u16 => Type::ExportStatementRepeat1,
        327u16 => Type::ExportClauseRepeat1,
        328u16 => Type::NamedImportsRepeat1,
        329u16 => Type::VariableDeclarationRepeat1,
        330u16 => Type::SwitchBodyRepeat1,
        331u16 => Type::ObjectRepeat1,
        332u16 => Type::ObjectPatternRepeat1,
        333u16 => Type::ArrayRepeat1,
        334u16 => Type::ArrayPatternRepeat1,
        335u16 => Type::StringRepeat1,
        336u16 => Type::StringRepeat2,
        337u16 => Type::TemplateStringRepeat1,
        338u16 => Type::ClassBodyRepeat1,
        339u16 => Type::FormalParametersRepeat1,
        340u16 => Type::ExtendsClauseRepeat1,
        341u16 => Type::ImplementsClauseRepeat1,
        342u16 => Type::ExtendsTypeClauseRepeat1,
        343u16 => Type::EnumBodyRepeat1,
        344u16 => Type::TemplateLiteralTypeRepeat1,
        345u16 => Type::ObjectTypeRepeat1,
        346u16 => Type::TypeParametersRepeat1,
        347u16 => Type::TupleTypeRepeat1,
        348u16 => Type::ImportSpecifier,
        349u16 => Type::NamespaceExport,
        350u16 => Type::PropertyIdentifier,
        351u16 => Type::ShorthandPropertyIdentifier,
        352u16 => Type::ShorthandPropertyIdentifierPattern,
        353u16 => Type::StatementIdentifier,
        354u16 => Type::ThisType,
        355u16 => Type::TypeIdentifier,
        356u16 => Type::ERROR,
        _ => Type::ERROR,
    }
}

/// The canonical number of each kind: its position in the declaration order.
/// Distinct kinds have distinct numbers.
pub open spec fn u16_of_type(t: Type) -> u16 {
    match t {
        Type::End => 0,
        Type::Identifier => 1,
        Type::HashBangLine => 2,
        Type::Export => 3,
        Type::Star => 4,
        Type::Default => 5,
        Type::Type => 6,
        Type::Eq => 7,
        Type::As => 8,
        Type::Namespace => 9,
        Type::LBrace => 10,
        Type::Comma => 11,
        Type::RBrace => 12,
        Type::Typeof => 13,
        Type::Import => 14,
        Type::From => 15,
        Type::Var => 16,
        Type::Let => 17,
        Type::Const => 18,
        Type::Bang => 19,
        Type::Else => 20,
        Type::If => 21,
        Type::Switch => 22,
        Type::For => 23,
        Type::LParen => 24,
        Type::RParen => 25,
        Type::Await => 26,
        Type::In => 27,
        Type::Of => 28,
        Type::While => 29,
        Type::Do => 30,
        Type::Try => 31,
        Type::With => 32,
        Type::Break => 33,
        Type::Continue => 34,
        Type::Debugger => 35,
        Type::Return => 36,
        Type::Throw => 37,
        Type::SemiColon => 38,
        Type::Colon => 39,
        Type::Case => 40,
        Type::Catch => 41,
        Type::Finally => 42,
        Type::Yield => 43,
        Type::LBracket => 44,
        Type::RBracket => 45,
        Type::LT => 46,
        Type::GT => 47,
        Type::Slash => 48,
        Type::Dot => 49,
        Type::Class => 50,
        Type::Async => 51,
        Type::Function => 52,
        Type::TS0 => 53,
        Type::TS1 => 54,
        Type::New => 55,
        Type::PlusEq => 56,
        Type::DashEq => 57,
        Type::StarEq => 58,
        Type::SlashEq => 59,
        Type::PercentEq => 60,
        Type::CaretEq => 61,
        Type::AmpEq => 62,
        Type::PipeEq => 63,
        Type::GtGtEq => 64,
        Type::GtGtGtEq => 65,
        Type::LtLtEq => 66,
        Type::TS2 => 67,
        Type::TS3 => 68,
        Type::TS4 => 69,
        Type::TS5 => 70,
        Type::DotDotDot => 71,
        Type::AmpAmp => 72,
        Type::PipePipe => 73,
        Type::GtGt => 74,
        Type::GtGtGt => 75,
        Type::LtLt => 76,
        Type::Amp => 77,
        Type::Caret => 78,
        Type::Pipe => 79,
        Type::Plus => 80,
        Type::Dash => 81,
        Type::Percent => 82,
        Type::TS6 => 83,
        Type::LTEq => 84,
        Type::EqEq => 85,
        Type::TS7 => 86,
        Type::BangEq => 87,
        Type::TS8 => 88,
        Type::GTEq => 89,
        Type::TS9 => 90,
        Type::Instanceof => 91,
        Type::Tilde => 92,
        Type::Void => 93,
        Type::Delete => 94,
        Type::PlusPlus => 95,
        Type::DashDash => 96,
        Type::TS10 => 97,
        Type::TS11 => 98,
        Type::StringFragment => 99,
        Type::EscapeSequence => 100,
        Type::Comment => 101,
        Type::TS12 => 102,
        Type::TS13 => 103,
        Type::RegexPattern => 104,
        Type::RegexFlags => 105,
        Type::Number => 106,
        Type::PrivatePropertyIdentifier => 107,
        Type::Target => 108,
        Type::This => 109,
        Type::Super => 110,
        Type::True => 111,
        Type::False => 112,
        Type::Null => 113,
        Type::Undefined => 114,
        Type::At => 115,
        Type::Static => 116,
        Type::Readonly => 117,
        Type::Get => 118,
        Type::SetKw => 119,
        Type::QMark => 120,
        Type::Declare => 121,
        Type::Public => 122,
        Type::Private => 123,
        Type::Protected => 124,
        Type::Override => 125,
        Type::Module => 126,
        Type::Any => 127,
        Type::Boolean => 128,
        Type::String => 129,
        Type::Symbol => 130,
        Type::Abstract => 131,
        Type::Require => 132,
        Type::Extends => 133,
        Type::Implements => 134,
        Type::Global => 135,
        Type::Interface => 136,
        Type::Enum => 137,
        Type::TS14 => 138,
        Type::TS15 => 139,
        Type::Asserts => 140,
        Type::Infer => 141,
        Type::Is => 142,
        Type::Keyof => 143,
        Type::Unknown => 144,
        Type::Never => 145,
        Type::Object => 146,
        Type::TS16 => 147,
        Type::TS17 => 148,
        Type::TS18 => 149,
        Type::TS19 => 150,
        Type::TS20 => 151,
        Type::Program => 152,
        Type::ExportStatement => 153,
        Type::ExportClause => 154,
        Type::ExportSpecifier => 155,
        Type::Declaration => 156,
        Type::ImportStatement => 157,
        Type::ImportClause => 158,
        Type::TS21 => 159,
        Type::NamespaceImport => 160,
        Type::NamedImports => 161,
        Type::ExpressionStatement => 162,
        Type::VariableDeclaration => 163,
        Type::LexicalDeclaration => 164,
        Type::VariableDeclarator => 165,
        Type::StatementBlock => 166,
        Type::ElseClause => 167,
        Type::IfStatement => 168,
        Type::SwitchStatement => 169,
        Type::ForStatement => 170,
        Type::ForInStatement => 171,
        Type::TS22 => 172,
        Type::WhileStatement => 173,
        Type::DoStatement => 174,
        Type::TryStatement => 175,
        Type::WithStatement => 176,
        Type::BreakStatement => 177,
        Type::ContinueStatement => 178,
        Type::DebuggerStatement => 179,
        Type::ReturnStatement => 180,
        Type::ThrowStatement => 181,
        Type::EmptyStatement => 182,
        Type::LabeledStatement => 183,
        Type::SwitchBody => 184,
        Type::SwitchCase => 185,
        Type::SwitchDefault => 186,
        Type::CatchClause => 187,
        Type::FinallyClause => 188,
        Type::ParenthesizedExpression => 189,
        Type::Expression => 190,
        Type::PrimaryExpression => 191,
        Type::YieldExpression => 192,
        Type::ObjectPattern => 193,
        Type::AssignmentPattern => 194,
        Type::ObjectAssignmentPattern => 195,
        Type::Array => 196,
        Type::ArrayPattern => 197,
        Type::NestedIdentifier => 198,
        Type::ClassDeclaration => 199,
        Type::ClassHeritage => 200,
        Type::FunctionDeclaration => 201,
        Type::GeneratorFunction => 202,
        Type::GeneratorFunctionDeclaration => 203,
        Type::ArrowFunction => 204,
        Type::TS23 => 205,
        Type::TS24 => 206,
        Type::CallExpression => 207,
        Type::NewExpression => 208,
        Type::AwaitExpression => 209,
        Type::MemberExpression => 210,
        Type::SubscriptExpression => 211,
        Type::AssignmentExpression => 212,
        Type::TS25 => 213,
        Type::AugmentedAssignmentExpression => 214,
        Type::TS26 => 215,
        Type::TS27 => 216,
        Type::SpreadElement => 217,
        Type::TernaryExpression => 218,
        Type::BinaryExpression => 219,
        Type::UnaryExpression => 220,
        Type::UpdateExpression => 221,
        Type::SequenceExpression => 222,
        Type::TemplateString => 223,
        Type::TemplateSubstitution => 224,
        Type::Regex => 225,
        Type::MetaProperty => 226,
        Type::Arguments => 227,
        Type::Decorator => 228,
        Type::ClassBody => 229,
        Type::FormalParameters => 230,
        Type::Pattern => 231,
        Type::RestPattern => 232,
        Type::MethodDefinition => 233,
        Type::Pair => 234,
        Type::PairPattern => 235,
        Type::TS28 => 236,
        Type::ComputedPropertyName => 237,
        Type::PublicFieldDefinition => 238,
        Type::NonNullExpression => 239,
        Type::MethodSignature => 240,
        Type::AbstractMethodSignature => 241,
        Type::FunctionSignature => 242,
        Type::TypeAssertion => 243,
        Type::AsExpression => 244,
        Type::ImportRequireClause => 245,
        Type::ExtendsClause => 246,
        Type::ImplementsClause => 247,
        Type::AmbientDeclaration => 248,
        Type::AbstractClassDeclaration => 249,
        Type::InternalModule => 250,
        Type::TS29 => 251,
        Type::ImportAlias => 252,
        Type::NestedTypeIdentifier => 253,
        Type::InterfaceDeclaration => 254,
        Type::ExtendsTypeClause => 255,
        Type::EnumDeclaration => 256,
        Type::EnumBody => 257,
        Type::EnumAssignment => 258,
        Type::TypeAliasDeclaration => 259,
        Type::AccessibilityModifier => 260,
        Type::OverrideModifier => 261,
        Type::RequiredParameter => 262,
        Type::OptionalParameter => 263,
        Type::TS30 => 264,
        Type::OmittingTypeAnnotation => 265,
        Type::OptingTypeAnnotation => 266,
        Type::TypeAnnotation => 267,
        Type::TS31 => 268,
        Type::OptionalType => 269,
        Type::RestType => 270,
        Type::TS32 => 271,
        Type::ConstructorType => 272,
        Type::PrimaryType => 273,
        Type::TemplateType => 274,
        Type::TemplateLiteralType => 275,
        Type::InferType => 276,
        Type::ConditionalType => 277,
        Type::GenericType => 278,
        Type::TypePredicate => 279,
        Type::TypePredicateAnnotation => 280,
        Type::TypeQuery => 281,
        Type::IndexTypeQuery => 282,
        Type::LookupType => 283,
        Type::MappedTypeClause => 284,
        Type::LiteralType => 285,
        Type::ExistentialType => 286,
        Type::FlowMaybeType => 287,
        Type::ParenthesizedType => 288,
        Type::PredefinedType => 289,
        Type::TypeArguments => 290,
        Type::ObjectType => 291,
        Type::CallSignature => 292,
        Type::PropertySignature => 293,
        Type::TypeParameters => 294,
        Type::TypeParameter => 295,
        Type::DefaultType => 296,
        Type::Constraint => 297,
        Type::ConstructSignature => 298,
        Type::IndexSignature => 299,
        Type::ArrayType => 300,
        Type::TupleType => 301,
        Type::ReadonlyType => 302,
        Type::UnionType => 303,
        Type::IntersectionType => 304,
        Type::FunctionType => 305,
        Type::ProgramRepeat1 => 306,
        Type::ExportStatementRepeat1 => 307,
        Type::ExportClauseRepeat1 => 308,
        Type::NamedImportsRepeat1 => 309,
        Type::VariableDeclarationRepeat1 => 310,
        Type::SwitchBodyRepeat1 => 311,
        Type::ObjectRepeat1 => 312,
        Type::ObjectPatternRepeat1 => 313,
        Type::ArrayRepeat1 => 314,
        Type::ArrayPatternRepeat1 => 315,
        Type::StringRepeat1 => 316,
        Type::StringRepeat2 => 317,
        Type::TemplateStringRepeat1 => 318,
        Type::ClassBodyRepeat1 => 319,
        Type::FormalParametersRepeat1 => 320,
        Type::ExtendsClauseRepeat1 => 321,
        Type::ImplementsClauseRepeat1 => 322,
        Type::ExtendsTypeClauseRepeat1 => 323,
        Type::EnumBodyRepeat1 => 324,
        Type::TemplateLiteralTypeRepeat1 => 325,
        Type::ObjectTypeRepeat1 => 326,
        Type::TypeParametersRepeat1 => 327,
        Type::TupleTypeRepeat1 => 328,
        Type::ImportSpecifier => 329,
        Type::NamespaceExport => 330,
        Type::PropertyIdentifier => 331,
        Type::ShorthandPropertyIdentifier => 332,
        Type::ShorthandPropertyIdentifierPattern => 333,
        Type::StatementIdentifier => 334,
        Type::ThisType => 335,
        Type::TypeIdentifier => 336,
        Type::Spaces => 337,
        Type::Directory => 338,
        Type::ERROR => 339,
    }
}

/// The display string of each kind.
pub open spec fn str_of_type(t: Type) -> Seq<char> {
    match t {
        Type::End => "end"@,
        Type::Identifier => "identifier"@,
        Type::HashBangLine => "hash_bang_line"@,
        Type::Export => "export"@,
        Type::Star => "*"@,
        Type::Default => "default"@,
        Type::Type => "type"@,
        Type::Eq => "="@,
        Type::As => "as"@,
        Type::Namespace => "namespace"@,
        Type::LBrace => "{"@,
        Type::Comma => ","@,
        Type::RBrace => "}"@,
        Type::Typeof => "typeof"@,
        Type::Import => "import"@,
        Type::From => "from"@,
        Type::Var => "var"@,
        Type::Let => "let"@,
        Type::Const => "const"@,
        Type::Bang => "!"@,
        Type::Else => "else"@,
        Type::If => "if"@,
        Type::Switch => "switch"@,
        Type::For => "for"@,
        Type::LParen => "("@,
        Type::RParen => ")"@,
        Type::Await => "await"@,
        Type::In => "in"@,
        Type::Of => "of"@,
        Type::While => "while"@,
        Type::Do => "do"@,
        Type::Try => "try"@,
        Type::With => "with"@,
        Type::Break => "break"@,
        Type::Continue => "continue"@,
        Type::Debugger => "debugger"@,
        Type::Return => "return"@,
        Type::Throw => "throw"@,
        Type::SemiColon => ";"@,
        Type::Colon => ":"@,
        Type::Case => "case"@,
        Type::Catch => "catch"@,
        Type::Finally => "finally"@,
        Type::Yield => "yield"@,
        Type::LBracket => "["@,
        Type::RBracket => "]"@,
        Type::LT => "<"@,
        Type::GT => ">"@,
        Type::Slash => "/"@,
        Type::Dot => "."@,
        Type::Class => "class"@,
        Type::Async => "async"@,
        Type::Function => "function"@,
        Type::TS0 => "=>"@,
        Type::TS1 => "?."@,
        Type::New => "new"@,
        Type::PlusEq => "+="@,
        Type::DashEq => "-="@,
        Type::StarEq => "*="@,
        Type::SlashEq => "/="@,
        Type::PercentEq => "%="@,
        Type::CaretEq => "^="@,
        Type::AmpEq => "&="@,
        Type::PipeEq => "|="@,
        Type::GtGtEq => ">>="@,
        Type::GtGtGtEq => ">>>="@,
        Type::LtLtEq => "<<="@,
        Type::TS2 => "**="@,
        Type::TS3 => "&&="@,
        Type::TS4 => "||="@,
        Type::TS5 => "??="@,
        Type::DotDotDot => "..."@,
        Type::AmpAmp => "&&"@,
        Type::PipePipe => "||"@,
        Type::GtGt => ">>"@,
        Type::GtGtGt => ">>>"@,
        Type::LtLt => "<<"@,
        Type::Amp => "&"@,
        Type::Caret => "^"@,
        Type::Pipe => "|"@,
        Type::Plus => "+"@,
        Type::Dash => "-"@,
        Type::Percent => "%"@,
        Type::TS6 => "**"@,
        Type::LTEq => "<="@,
        Type::EqEq => "=="@,
        Type::TS7 => "==="@,
        Type::BangEq => "!="@,
        Type::TS8 => "!=="@,
        Type::GTEq => ">="@,
        Type::TS9 => "??"@,
        Type::Instanceof => "instanceof"@,
        Type::Tilde => "~"@,
        Type::Void => "void"@,
        Type::Delete => "delete"@,
        Type::PlusPlus => "++"@,
        Type::DashDash => "--"@,
        Type::TS10 => "\""@,
        Type::TS11 => "'"@,
        Type::StringFragment => "string_fragment"@,
        Type::EscapeSequence => "escape_sequence"@,
        Type::Comment => "comment"@,
        Type::TS12 => "`"@,
        Type::TS13 => "${"@,
        Type::RegexPattern => "regex_pattern"@,
        Type::RegexFlags => "regex_flags"@,
        Type::Number => "number"@,
        Type::PrivatePropertyIdentifier => "private_property_identifier"@,
        Type::Target => "target"@,
        Type::This => "this"@,
        Type::Super => "super"@,
        Type::True => "true"@,
        Type::False => "false"@,
        Type::Null => "null"@,
        Type::Undefined => "undefined"@,
        Type::At => "@"@,
        Type::Static => "static"@,
        Type::Readonly => "readonly"@,
        Type::Get => "get"@,
        Type::SetKw => "set"@,
        Type::QMark => "?"@,
        Type::Declare => "declare"@,
        Type::Public => "public"@,
        Type::Private => "private"@,
        Type::Protected => "protected"@,
        Type::Override => "override"@,
        Type::Module => "module"@,
        Type::Any => "any"@,
        Type::Boolean => "boolean"@,
        Type::String => "string"@,
        Type::Symbol => "symbol"@,
        Type::Abstract => "abstract"@,
        Type::Require => "require"@,
        Type::Extends => "extends"@,
        Type::Implements => "implements"@,
        Type::Global => "global"@,
        Type::Interface => "interface"@,
        Type::Enum => "enum"@,
        Type::TS14 => "-?:"@,
        Type::TS15 => "?:"@,
        Type::Asserts => "asserts"@,
        Type::Infer => "infer"@,
        Type::Is => "is"@,
        Type::Keyof => "keyof"@,
        Type::Unknown => "unknown"@,
        Type::Never => "never"@,
        Type::Object => "object"@,
        Type::TS16 => "{|"@,
        Type::TS17 => "|}"@,
        Type::TS18 => "_automatic_semicolon"@,
        Type::TS19 => "_template_chars"@,
        Type::TS20 => "_function_signature_automatic_semicolon"@,
        Type::Program => "program"@,
        Type::ExportStatement => "export_statement"@,
        Type::ExportClause => "export_clause"@,
        Type::ExportSpecifier => "export_specifier"@,
        Type::Declaration => "declaration"@,
        Type::ImportStatement => "import_statement"@,
        Type::ImportClause => "import_clause"@,
        Type::TS21 => "_from_clause"@,
        Type::NamespaceImport => "namespace_import"@,
        Type::NamedImports => "named_imports"@,
        Type::ExpressionStatement => "expression_statement"@,
        Type::VariableDeclaration => "variable_declaration"@,
        Type::LexicalDeclaration => "lexical_declaration"@,
        Type::VariableDeclarator => "variable_declarator"@,
        Type::StatementBlock => "statement_block"@,
        Type::ElseClause => "else_clause"@,
        Type::IfStatement => "if_statement"@,
        Type::SwitchStatement => "switch_statement"@,
        Type::ForStatement => "for_statement"@,
        Type::ForInStatement => "for_in_statement"@,
        Type::TS22 => "_for_header"@,
        Type::WhileStatement => "while_statement"@,
        Type::DoStatement => "do_statement"@,
        Type::TryStatement => "try_statement"@,
        Type::WithStatement => "with_statement"@,
        Type::BreakStatement => "break_statement"@,
        Type::ContinueStatement => "continue_statement"@,
        Type::DebuggerStatement => "debugger_statement"@,
        Type::ReturnStatement => "return_statement"@,
        Type::ThrowStatement => "throw_statement"@,
        Type::EmptyStatement => "empty_statement"@,
        Type::LabeledStatement => "labeled_statement"@,
        Type::SwitchBody => "switch_body"@,
        Type::SwitchCase => "switch_case"@,
        Type::SwitchDefault => "switch_default"@,
        Type::CatchClause => "catch_clause"@,
        Type::FinallyClause => "finally_clause"@,
        Type::ParenthesizedExpression => "parenthesized_expression"@,
        Type::Expression => "expression"@,
        Type::PrimaryExpression => "primary_expression"@,
        Type::YieldExpression => "yield_expression"@,
        Type::ObjectPattern => "object_pattern"@,
        Type::AssignmentPattern => "assignment_pattern"@,
        Type::ObjectAssignmentPattern => "object_assignment_pattern"@,
        Type::Array => "array"@,
        Type::ArrayPattern => "array_pattern"@,
        Type::NestedIdentifier => "nested_identifier"@,
        Type::ClassDeclaration => "class_declaration"@,
        Type::ClassHeritage => "class_heritage"@,
        Type::FunctionDeclaration => "function_declaration"@,
        Type::GeneratorFunction => "generator_function"@,
        Type::GeneratorFunctionDeclaration => "generator_function_declaration"@,
        Type::ArrowFunction => "arrow_function"@,
        Type::TS23 => "_call_signature"@,
        Type::TS24 => "_formal_parameter"@,
        Type::CallExpression => "call_expression"@,
        Type::NewExpression => "new_expression"@,
        Type::AwaitExpression => "await_expression"@,
        Type::MemberExpression => "member_expression"@,
        Type::SubscriptExpression => "subscript_expression"@,
        Type::AssignmentExpression => "assignment_expression"@,
        Type::TS25 => "_augmented_assignment_lhs"@,
        Type::AugmentedAssignmentExpression => "augmented_assignment_expression"@,
        Type::TS26 => "_initializer"@,
        Type::TS27 => "_destructuring_pattern"@,
        Type::SpreadElement => "spread_element"@,
        Type::TernaryExpression => "ternary_expression"@,
        Type::BinaryExpression => "binary_expression"@,
        Type::UnaryExpression => "unary_expression"@,
        Type::UpdateExpression => "update_expression"@,
        Type::SequenceExpression => "sequence_expression"@,
        Type::TemplateString => "template_string"@,
        Type::TemplateSubstitution => "template_substitution"@,
        Type::Regex => "regex"@,
        Type::MetaProperty => "meta_property"@,
        Type::Arguments => "arguments"@,
        Type::Decorator => "decorator"@,
        Type::ClassBody => "class_body"@,
        Type::FormalParameters => "formal_parameters"@,
        Type::Pattern => "pattern"@,
        Type::RestPattern => "rest_pattern"@,
        Type::MethodDefinition => "method_definition"@,
        Type::Pair => "pair"@,
        Type::PairPattern => "pair_pattern"@,
        Type::TS28 => "_property_name"@,
        Type::ComputedPropertyName => "computed_property_name"@,
        Type::PublicFieldDefinition => "public_field_definition"@,
        Type::NonNullExpression => "non_null_expression"@,
        Type::MethodSignature => "method_signature"@,
        Type::AbstractMethodSignature => "abstract_method_signature"@,
        Type::FunctionSignature => "function_signature"@,
        Type::TypeAssertion => "type_assertion"@,
        Type::AsExpression => "as_expression"@,
        Type::ImportRequireClause => "import_require_clause"@,
        Type::ExtendsClause => "extends_clause"@,
        Type::ImplementsClause => "implements_clause"@,
        Type::AmbientDeclaration => "ambient_declaration"@,
        Type::AbstractClassDeclaration => "abstract_class_declaration"@,
        Type::InternalModule => "internal_module"@,
        Type::TS29 => "_module"@,
        Type::ImportAlias => "import_alias"@,
        Type::NestedTypeIdentifier => "nested_type_identifier"@,
        Type::InterfaceDeclaration => "interface_declaration"@,
        Type::ExtendsTypeClause => "extends_type_clause"@,
        Type::EnumDeclaration => "enum_declaration"@,
        Type::EnumBody => "enum_body"@,
        Type::EnumAssignment => "enum_assignment"@,
        Type::TypeAliasDeclaration => "type_alias_declaration"@,
        Type::AccessibilityModifier => "accessibility_modifier"@,
        Type::OverrideModifier => "override_modifier"@,
        Type::RequiredParameter => "required_parameter"@,
        Type::OptionalParameter => "optional_parameter"@,
        Type::TS30 => "_parameter_name"@,
        Type::OmittingTypeAnnotation => "omitting_type_annotation"@,
        Type::OptingTypeAnnotation => "opting_type_annotation"@,
        Type::TypeAnnotation => "type_annotation"@,
        Type::TS31 => "_type"@,
        Type::OptionalType => "optional_type"@,
        Type::RestType => "rest_type"@,
        Type::TS32 => "_tuple_type_member"@,
        Type::ConstructorType => "constructor_type"@,
        Type::PrimaryType => "_primary_type"@,
        Type::TemplateType => "template_type"@,
        Type::TemplateLiteralType => "template_literal_type"@,
        Type::InferType => "infer_type"@,
        Type::ConditionalType => "conditional_type"@,
        Type::GenericType => "generic_type"@,
        Type::TypePredicate => "type_predicate"@,
        Type::TypePredicateAnnotation => "type_predicate_annotation"@,
        Type::TypeQuery => "type_query"@,
        Type::IndexTypeQuery => "index_type_query"@,
        Type::LookupType => "lookup_type"@,
        Type::MappedTypeClause => "mapped_type_clause"@,
        Type::LiteralType => "literal_type"@,
        Type::ExistentialType => "existential_type"@,
        Type::FlowMaybeType => "flow_maybe_type"@,
        Type::ParenthesizedType => "parenthesized_type"@,
        Type::PredefinedType => "predefined_type"@,
        Type::TypeArguments => "type_arguments"@,
        Type::ObjectType => "object_type"@,
        Type::CallSignature => "call_signature"@,
        Type::PropertySignature => "property_signature"@,
        Type::TypeParameters => "type_parameters"@,
        Type::TypeParameter => "type_parameter"@,
        Type::DefaultType => "default_type"@,
        Type::Constraint => "constraint"@,
        Type::ConstructSignature => "construct_signature"@,
        Type::IndexSignature => "index_signature"@,
        Type::ArrayType => "array_type"@,
        Type::TupleType => "tuple_type"@,
        Type::ReadonlyType => "readonly_type"@,
        Type::UnionType => "union_type"@,
        Type::IntersectionType => "intersection_type"@,
        Type::FunctionType => "function_type"@,
        Type::ProgramRepeat1 => "program_repeat1"@,
        Type::ExportStatementRepeat1 => "export_statement_repeat1"@,
        Type::ExportClauseRepeat1 => "export_clause_repeat1"@,
        Type::NamedImportsRepeat1 => "named_imports_repeat1"@,
        Type::VariableDeclarationRepeat1 => "variable_declaration_repeat1"@,
        Type::SwitchBodyRepeat1 => "switch_body_repeat1"@,
        Type::ObjectRepeat1 => "object_repeat1"@,
        Type::ObjectPatternRepeat1 => "object_pattern_repeat1"@,
        Type::ArrayRepeat1 => "array_repeat1"@,
        Type::ArrayPatternRepeat1 => "array_pattern_repeat1"@,
        Type::StringRepeat1 => "string_repeat1"@,
        Type::StringRepeat2 => "string_repeat2"@,
        Type::TemplateStringRepeat1 => "template_string_repeat1"@,
        Type::ClassBodyRepeat1 => "class_body_repeat1"@,
        Type::FormalParametersRepeat1 => "formal_parameters_repeat1"@,
        Type::ExtendsClauseRepeat1 => "extends_clause_repeat1"@,
        Type::ImplementsClauseRepeat1 => "implements_clause_repeat1"@,
        Type::ExtendsTypeClauseRepeat1 => "extends_type_clause_repeat1"@,
        Type::EnumBodyRepeat1 => "enum_body_repeat1"@,
        Type::TemplateLiteralTypeRepeat1 => "template_literal_type_repeat1"@,
        Type::ObjectTypeRepeat1 => "object_type_repeat1"@,
        Type::TypeParametersRepeat1 => "type_parameters_repeat1"@,
        Type::TupleTypeRepeat1 => "tuple_type_repeat1"@,
        Type::ImportSpecifier => "import_specifier"@,
        Type::NamespaceExport => "namespace_export"@,
        Type::PropertyIdentifier => "property_identifier"@,
        Type::ShorthandPropertyIdentifier => "shorthand_property_identifier"@,
        Type::ShorthandPropertyIdentifierPattern => "shorthand_property_identifier_pattern"@,
        Type::StatementIdentifier => "statement_identifier"@,
        Type::ThisType => "this_type"@,
        Type::TypeIdentifier => "type_identifier"@,
        Type::Spaces => "Spaces"@,
        Type::Directory => "Directory"@,
        Type::ERROR => "ERROR"@,
    }
}

impl Type {
    /// The kind behind a grammar-assigned number. Numbers past the grammar's
    /// range have no kind, and the caller rules them out.
    #[verifier::rlimit(100)]
    pub fn from_u16(t: u16) -> (r: Type)
        requires
            t < 357,
        ensures
            r == type_of_u16(t),
    {
        match t {
            0u16 => Type::End,
            1u16 => Type::Identifier,
            2u16 => Type::HashBangLine,
            3u16 => Type::Export,
            4u16 => Type::Star,
            5u16 => Type::Default,
            6u16 => Type::Type,
            7u16 => Type::Eq,
            8u16 => Type::As,
            9u16 => Type::Namespace,
            10u16 => Type::LBrace,
            11u16 => Type::Comma,
            12u16 => Type::RBrace,
            13u16 => Type::Typeof,
            14u16 => Type::Import,
            15u16 => Type::From,
            16u16 => Type::Var,
            17u16 => Type::Let,
            18u16 => Type::Const,
            19u16 => Type::Bang,
            20u16 => Type::Else,
            21u16 => Type::If,
            22u16 => Type::Switch,
            23u16 => Type::For,
            24u16 => Type::LParen,
            25u16 => Type::RParen,
            26u16 => Type::Await,
            27u16 => Type::In,
            28u16 => Type::Of,
            29u16 => Type::While,
            30u16 => Type::Do,
            31u16 => Type::Try,
            32u16 => Type::With,
            33u16 => Type::Break,
            34u16 => Type::Continue,
            35u16 => Type::Debugger,
            36u16 => Type::Return,
            37u16 => Type::Throw,
            38u16 => Type::SemiColon,
            39u16 => Type::Colon,
            40u16 => Type::Case,
            41u16 => Type::Catch,
            42u16 => Type::Finally,
            43u16 => Type::Yield,
            44u16 => Type::LBracket,
            45u16 => Type::RBracket,
            46u16 => Type::LT,
            47u16 => Type::GT,
            48u16 => Type::Slash,
            49u16 => Type::Dot,
            50u16 => Type::Class,
            51u16 => Type::Async,
            52u16 => Type::Function,
            53u16 => Type::TS0,
            54u16 => Type::TS1,
            55u16 => Type::New,
            56u16 => Type::PlusEq,
            57u16 => Type::DashEq,
            58u16 => Type::StarEq,
            59u16 => Type::SlashEq,
            60u16 => Type::PercentEq,
            61u16 => Type::CaretEq,
            62u16 => Type::AmpEq,
            63u16 => Type::PipeEq,
            64u16 => Type::GtGtEq,
            65u16 => Type::GtGtGtEq,
            66u16 => Type::LtLtEq,
            67u16 => Type::TS2,
            68u16 => Type::TS3,
            69u16 => Type::TS4,
            70u16 => Type::TS5,
            71u16 => Type::DotDotDot,
            72u16 => Type::AmpAmp,
            73u16 => Type::PipePipe,
            74u16 => Type::GtGt,
            75u16 => Type::GtGtGt,
            76u16 => Type::LtLt,
            77u16 => Type::Amp,
            78u16 => Type::Caret,
            79u16 => Type::Pipe,
            80u16 => Type::Plus,
            81u16 => Type::Dash,
            82u16 => Type::Percent,
            83u16 => Type::TS6,
            84u16 => Type::LTEq,
            85u16 => Type::EqEq,
            86u16 => Type::TS7,
            87u16 => Type::BangEq,
            88u16 => Type::TS8,
            89u16 => Type::GTEq,
            90u16 => Type::TS9,
            91u16 => Type::Instanceof,
            92u16 => Type::Tilde,
            93u16 => Type::Void,
            94u16 => Type::Delete,
            95u16 => Type::PlusPlus,
            96u16 => Type::DashDash,
            97u16 => Type::TS10,
            98u16 => Type::TS11,
            99u16 => Type::StringFragment,
            100u16 => Type::StringFragment,
            101u16 => Type::EscapeSequence,
            102u16 => Type::Comment,
            103u16 => Type::TS12,
            104u16 => Type::TS13,
            105u16 => Type::Slash,
            106u16 => Type::RegexPattern,
            107u16 => Type::RegexFlags,
            108u16 => Type::Number,
            109u16 => Type::PrivatePropertyIdentifier,
            110u16 => Type::Target,
            111u16 => Type::This,
            112u16 => Type::Super,
            113u16 => Type::True,
            114u16 => Type::False,
            115u16 => Type::Null,
            116u16 => Type::Undefined,
            117u16 => Type::At,
            118u16 => Type::Static,
            119u16 => Type::Readonly,
            120u16 => Type::Get,
            121u16 => Type::SetKw,
            122u16 => Type::QMark,
            123u16 => Type::Declare,
            124u16 => Type::Public,
            125u16 => Type::Private,
            126u16 => Type::Protected,
            127u16 => Type::Override,
            128u16 => Type::Module,
            129u16 => Type::Any,
            130u16 => Type::Number,
            131u16 => Type::Boolean,
            132u16 => Type::String,
            133u16 => Type::Symbol,
            134u16 => Type::Abstract,
            135u16 => Type::Require,
            136u16 => Type::Extends,
            137u16 => Type::Implements,
            138u16 => Type::Global,
            139u16 => Type::Interface,
            140u16 => Type::Enum,
            141u16 => Type::TS14,
            142u16 => Type::TS15,
            143u16 => Type::Asserts,
            144u16 => Type::Infer,
            145u16 => Type::Is,
            146u16 => Type::Keyof,
            147u16 => Type::Unknown,
            148u16 => Type::Never,
            149u16 => Type::Object,
            150u16 => Type::TS16,
            151u16 => Type::TS17,
            152u16 => Type::TS18,
            153u16 => Type::TS19,
            154u16 => Type::QMark,
            155u16 => Type::TS20,
            156u16 => Type::Program,
            157u16 => Type::ExportStatement,
            158u16 => Type::ExportClause,
            159u16 => Type::ExportSpecifier,
            160u16 => Type::Declaration,
            161u16 => Type::Import,
            162u16 => Type::ImportStatement,
            163u16 => Type::ImportClause,
            164u16 => Type::TS21,
            165u16 => Type::NamespaceImport,
            166u16 => Type::NamedImports,
            167u16 => Type::ExpressionStatement,
            168u16 => Type::VariableDeclaration,
            169u16 => Type::LexicalDeclaration,
            170u16 => Type::VariableDeclarator,
            171u16 => Type::StatementBlock,
            172u16 => Type::ElseClause,
            173u16 => Type::IfStatement,
            174u16 => Type::SwitchStatement,
            175u16 => Type::ForStatement,
            176u16 => Type::ForInStatement,
            177u16 => Type::TS22,
            178u16 => Type::WhileStatement,
            179u16 => Type::DoStatement,
            180u16 => Type::TryStatement,
            181u16 => Type::WithStatement,
            182u16 => Type::BreakStatement,
            183u16 => Type::ContinueStatement,
            184u16 => Type::DebuggerStatement,
            185u16 => Type::ReturnStatement,
            186u16 => Type::ThrowStatement,
            187u16 => Type::EmptyStatement,
            188u16 => Type::LabeledStatement,
            189u16 => Type::SwitchBody,
            190u16 => Type::SwitchCase,
            191u16 => Type::SwitchDefault,
            192u16 => Type::CatchClause,
            193u16 => Type::FinallyClause,
            194u16 => Type::ParenthesizedExpression,
            195u16 => Type::Expression,
            196u16 => Type::PrimaryExpression,
            197u16 => Type::YieldExpression,
            198u16 => Type::Object,
            199u16 => Type::ObjectPattern,
            200u16 => Type::AssignmentPattern,
            201u16 => Type::ObjectAssignmentPattern,
            202u16 => Type::Array,
            203u16 => Type::ArrayPattern,
            204u16 => Type::NestedIdentifier,
            205u16 => Type::Class,
            206u16 => Type::ClassDeclaration,
            207u16 => Type::ClassHeritage,
            208u16 => Type::Function,
            209u16 => Type::FunctionDeclaration,
            210u16 => Type::GeneratorFunction,
            211u16 => Type::GeneratorFunctionDeclaration,
            212u16 => Type::ArrowFunction,
            213u16 => Type::TS23,
            214u16 => Type::TS24,
            215u16 => Type::CallExpression,
            216u16 => Type::NewExpression,
            217u16 => Type::AwaitExpression,
            218u16 => Type::MemberExpression,
            219u16 => Type::SubscriptExpression,
            220u16 => Type::AssignmentExpression,
            221u16 => Type::TS25,
            222u16 => Type::AugmentedAssignmentExpression,
            223u16 => Type::TS26,
            224u16 => Type::TS27,
            225u16 => Type::SpreadElement,
            226u16 => Type::TernaryExpression,
            227u16 => Type::BinaryExpression,
            228u16 => Type::UnaryExpression,
            229u16 => Type::UpdateExpression,
            230u16 => Type::SequenceExpression,
            231u16 => Type::String,
            232u16 => Type::TemplateString,
            233u16 => Type::TemplateSubstitution,
            234u16 => Type::Regex,
            235u16 => Type::MetaProperty,
            236u16 => Type::Arguments,
            237u16 => Type::Decorator,
            238u16 => Type::MemberExpression,
            239u16 => Type::CallExpression,
            240u16 => Type::ClassBody,
            241u16 => Type::FormalParameters,
            242u16 => Type::Pattern,
            243u16 => Type::RestPattern,
            244u16 => Type::MethodDefinition,
            245u16 => Type::Pair,
            246u16 => Type::PairPattern,
            247u16 => Type::TS28,
            248u16 => Type::ComputedPropertyName,
            249u16 => Type::PublicFieldDefinition,
            250u16 => Type::NonNullExpression,
            251u16 => Type::MethodSignature,
            252u16 => Type::AbstractMethodSignature,
            253u16 => Type::FunctionSignature,
            254u16 => Type::TypeAssertion,
            255u16 => Type::AsExpression,
            256u16 => Type::ImportRequireClause,
            257u16 => Type::ExtendsClause,
            258u16 => Type::ImplementsClause,
            259u16 => Type::AmbientDeclaration,
            260u16 => Type::AbstractClassDeclaration,
            261u16 => Type::Module,
            262u16 => Type::InternalModule,
            263u16 => Type::TS29,
            264u16 => Type::ImportAlias,
            265u16 => Type::NestedTypeIdentifier,
            266u16 => Type::InterfaceDeclaration,
            267u16 => Type::ExtendsTypeClause,
            268u16 => Type::EnumDeclaration,
            269u16 => Type::EnumBody,
            270u16 => Type::EnumAssignment,
            271u16 => Type::TypeAliasDeclaration,
            272u16 => Type::AccessibilityModifier,
            273u16 => Type::OverrideModifier,
            274u16 => Type::RequiredParameter,
            275u16 => Type::OptionalParameter,
            276u16 => Type::TS30,
            277u16 => Type::OmittingTypeAnnotation,
            278u16 => Type::OptingTypeAnnotation,
            279u16 => Type::TypeAnnotation,
            280u16 => Type::Asserts,
            281u16 => Type::TS31,
            282u16 => Type::RequiredParameter,
            283u16 => Type::OptionalParameter,
            284u16 => Type::OptionalType,
            285u16 => Type::RestType,
            286u16 => Type::TS32,
            287u16 => Type::ConstructorType,
            288u16 => Type::PrimaryType,
            289u16 => Type::TemplateType,
            290u16 => Type::TemplateLiteralType,
            291u16 => Type::InferType,
            292u16 => Type::ConditionalType,
            293u16 => Type::GenericType,
            294u16 => Type::TypePredicate,
            295u16 => Type::TypePredicateAnnotation,
            296u16 => Type::MemberExpression,
            297u16 => Type::SubscriptExpression,
            298u16 => Type::CallExpression,
            299u16 => Type::TypeQuery,
            300u16 => Type::IndexTypeQuery,
            301u16 => Type::LookupType,
            302u16 => Type::MappedTypeClause,
            303u16 => Type::LiteralType,
            304u16 => Type::UnaryExpression,
            305u16 => Type::ExistentialType,
            306u16 => Type::FlowMaybeType,
            307u16 => Type::ParenthesizedType,
            308u16 => Type::PredefinedType,
            309u16 => Type::TypeArguments,
            310u16 => Type::ObjectType,
            311u16 => Type::CallSignature,
            312u16 => Type::PropertySignature,
            313u16 => Type::TypeParameters,
            314u16 => Type::TypeParameter,
            315u16 => Type::DefaultType,
            316u16 => Type::Constraint,
            317u16 => Type::ConstructSignature,
            318u16 => Type::IndexSignature,
            319u16 => Type::ArrayType,
            320u16 => Type::TupleType,
            321u16 => Type::ReadonlyType,
            322u16 => Type::UnionType,
            323u16 => Type::IntersectionType,
            324u16 => Type::FunctionType,
            325u16 => Type::ProgramRepeat1,
            326u16 => Type::ExportStatementRepeat1,
            327u16 => Type::ExportClauseRepeat1,
            328u16 => Type::NamedImportsRepeat1,
            329u16 => Type::VariableDeclarationRepeat1,
            330u16 => Type::SwitchBodyRepeat1,
            331u16 => Type::ObjectRepeat1,
            332u16 => Type::ObjectPatternRepeat1,
            333u16 => Type::ArrayRepeat1,
            334u16 => Type::ArrayPatternRepeat1,
            335u16 => Type::StringRepeat1,
            336u16 => Type::StringRepeat2,
            337u16 => Type::TemplateStringRepeat1,
            338u16 => Type::ClassBodyRepeat1,
            339u16 => Type::FormalParametersRepeat1,
            340u16 => Type::ExtendsClauseRepeat1,
            341u16 => Type::ImplementsClauseRepeat1,
            342u16 => Type::ExtendsTypeClauseRepeat1,
            343u16 => Type::EnumBodyRepeat1,
            344u16 => Type::TemplateLiteralTypeRepeat1,
            345u16 => Type::ObjectTypeRepeat1,
            346u16 => Type::TypeParametersRepeat1,
            347u16 => Type::TupleTypeRepeat1,
            348u16 => Type::ImportSpecifier,
            349u16 => Type::NamespaceExport,
            350u16 => Type::PropertyIdentifier,
            351u16 => Type::ShorthandPropertyIdentifier,
            352u16 => Type::ShorthandPropertyIdentifierPattern,
            353u16 => Type::StatementIdentifier,
            354u16 => Type::ThisType,
            355u16 => Type::TypeIdentifier,
            356u16 => Type::ERROR,
            _ => Type::ERROR,
        }
    }

    /// The kind at a canonical number; inverse of `u16_of_type`.
    #[verifier::rlimit(100)]
    pub fn resolve(t: u16) -> (r: Type)
        requires
            t < COUNT,
        ensures
            u16_of_type(r) == t,
    {
        match t {
            0u16 => Type::End,
            1u16 => Type::Identifier,
            2u16 => Type::HashBangLine,
            3u16 => Type::Export,
            4u16 => Type::Star,
            5u16 => Type::Default,
            6u16 => Type::Type,
            7u16 => Type::Eq,
            8u16 => Type::As,
            9u16 => Type::Namespace,
            10u16 => Type::LBrace,
            11u16 => Type::Comma,
            12u16 => Type::RBrace,
            13u16 => Type::Typeof,
            14u16 => Type::Import,
            15u16 => Type::From,
            16u16 => Type::Var,
            17u16 => Type::Let,
            18u16 => Type::Const,
            19u16 => Type::Bang,
            20u16 => Type::Else,
            21u16 => Type::If,
            22u16 => Type::Switch,
            23u16 => Type::For,
            24u16 => Type::LParen,
            25u16 => Type::RParen,
            26u16 => Type::Await,
            27u16 => Type::In,
            28u16 => Type::Of,
            29u16 => Type::While,
            30u16 => Type::Do,
            31u16 => Type::Try,
            32u16 => Type::With,
            33u16 => Type::Break,
            34u16 => Type::Continue,
            35u16 => Type::Debugger,
            36u16 => Type::Return,
            37u16 => Type::Throw,
            38u16 => Type::SemiColon,
            39u16 => Type::Colon,
            40u16 => Type::Case,
            41u16 => Type::Catch,
            42u16 => Type::Finally,
            43u16 => Type::Yield,
            44u16 => Type::LBracket,
            45u16 => Type::RBracket,
            46u16 => Type::LT,
            47u16 => Type::GT,
            48u16 => Type::Slash,
            49u16 => Type::Dot,
            50u16 => Type::Class,
            51u16 => Type::Async,
            52u16 => Type::Function,
            53u16 => Type::TS0,
            54u16 => Type::TS1,
            55u16 => Type::New,
            56u16 => Type::PlusEq,
            57u16 => Type::DashEq,
            58u16 => Type::StarEq,
            59u16 => Type::SlashEq,
            60u16 => Type::PercentEq,
            61u16 => Type::CaretEq,
            62u16 => Type::AmpEq,
            63u16 => Type::PipeEq,
            64u16 => Type::GtGtEq,
            65u16 => Type::GtGtGtEq,
            66u16 => Type::LtLtEq,
            67u16 => Type::TS2,
            68u16 => Type::TS3,
            69u16 => Type::TS4,
            70u16 => Type::TS5,
            71u16 => Type::DotDotDot,
            72u16 => Type::AmpAmp,
            73u16 => Type::PipePipe,
            74u16 => Type::GtGt,
            75u16 => Type::GtGtGt,
            76u16 => Type::LtLt,
            77u16 => Type::Amp,
            78u16 => Type::Caret,
            79u16 => Type::Pipe,
            80u16 => Type::Plus,
            81u16 => Type::Dash,
            82u16 => Type::Percent,
            83u16 => Type::TS6,
            84u16 => Type::LTEq,
            85u16 => Type::EqEq,
            86u16 => Type::TS7,
            87u16 => Type::BangEq,
            88u16 => Type::TS8,
            89u16 => Type::GTEq,
            90u16 => Type::TS9,
            91u16 => Type::Instanceof,
            92u16 => Type::Tilde,
            93u16 => Type::Void,
            94u16 => Type::Delete,
            95u16 => Type::PlusPlus,
            96u16 => Type::DashDash,
            97u16 => Type::TS10,
            98u16 => Type::TS11,
            99u16 => Type::StringFragment,
            100u16 => Type::EscapeSequence,
            101u16 => Type::Comment,
            102u16 => Type::TS12,
            103u16 => Type::TS13,
            104u16 => Type::RegexPattern,
            105u16 => Type::RegexFlags,
            106u16 => Type::Number,
            107u16 => Type::PrivatePropertyIdentifier,
            108u16 => Type::Target,
            109u16 => Type::This,
            110u16 => Type::Super,
            111u16 => Type::True,
            112u16 => Type::False,
            113u16 => Type::Null,
            114u16 => Type::Undefined,
            115u16 => Type::At,
            116u16 => Type::Static,
            117u16 => Type::Readonly,
            118u16 => Type::Get,
            119u16 => Type::SetKw,
            120u16 => Type::QMark,
            121u16 => Type::Declare,
            122u16 => Type::Public,
            123u16 => Type::Private,
            124u16 => Type::Protected,
            125u16 => Type::Override,
            126u16 => Type::Module,
            127u16 => Type::Any,
            128u16 => Type::Boolean,
            129u16 => Type::String,
            130u16 => Type::Symbol,
            131u16 => Type::Abstract,
            132u16 => Type::Require,
            133u16 => Type::Extends,
            134u16 => Type::Implements,
            135u16 => Type::Global,
            136u16 => Type::Interface,
            137u16 => Type::Enum,
            138u16 => Type::TS14,
            139u16 => Type::TS15,
            140u16 => Type::Asserts,
            141u16 => Type::Infer,
            142u16 => Type::Is,
            143u16 => Type::Keyof,
            144u16 => Type::Unknown,
            145u16 => Type::Never,
            146u16 => Type::Object,
            147u16 => Type::TS16,
            148u16 => Type::TS17,
            149u16 => Type::TS18,
            150u16 => Type::TS19,
            151u16 => Type::TS20,
            152u16 => Type::Program,
            153u16 => Type::ExportStatement,
            154u16 => Type::ExportClause,
            155u16 => Type::ExportSpecifier,
            156u16 => Type::Declaration,
            157u16 => Type::ImportStatement,
            158u16 => Type::ImportClause,
            159u16 => Type::TS21,
            160u16 => Type::NamespaceImport,
            161u16 => Type::NamedImports,
            162u16 => Type::ExpressionStatement,
            163u16 => Type::VariableDeclaration,
            164u16 => Type::LexicalDeclaration,
            165u16 => Type::VariableDeclarator,
            166u16 => Type::StatementBlock,
            167u16 => Type::ElseClause,
            168u16 => Type::IfStatement,
            169u16 => Type::SwitchStatement,
            170u16 => Type::ForStatement,
            171u16 => Type::ForInStatement,
            172u16 => Type::TS22,
            173u16 => Type::WhileStatement,
            174u16 => Type::DoStatement,
            175u16 => Type::TryStatement,
            176u16 => Type::WithStatement,
            177u16 => Type::BreakStatement,
            178u16 => Type::ContinueStatement,
            179u16 => Type::DebuggerStatement,
            180u16 => Type::ReturnStatement,
            181u16 => Type::ThrowStatement,
            182u16 => Type::EmptyStatement,
            183u16 => Type::LabeledStatement,
            184u16 => Type::SwitchBody,
            185u16 => Type::SwitchCase,
            186u16 => Type::SwitchDefault,
            187u16 => Type::CatchClause,
            188u16 => Type::FinallyClause,
            189u16 => Type::ParenthesizedExpression,
            190u16 => Type::Expression,
            191u16 => Type::PrimaryExpression,
            192u16 => Type::YieldExpression,
            193u16 => Type::ObjectPattern,
            194u16 => Type::AssignmentPattern,
            195u16 => Type::ObjectAssignmentPattern,
            196u16 => Type::Array,
            197u16 => Type::ArrayPattern,
            198u16 => Type::NestedIdentifier,
            199u16 => Type::ClassDeclaration,
            200u16 => Type::ClassHeritage,
            201u16 => Type::FunctionDeclaration,
            202u16 => Type::GeneratorFunction,
            203u16 => Type::GeneratorFunctionDeclaration,
            204u16 => Type::ArrowFunction,
            205u16 => Type::TS23,
            206u16 => Type::TS24,
            207u16 => Type::CallExpression,
            208u16 => Type::NewExpression,
            209u16 => Type::AwaitExpression,
            210u16 => Type::MemberExpression,
            211u16 => Type::SubscriptExpression,
            212u16 => Type::AssignmentExpression,
            213u16 => Type::TS25,
            214u16 => Type::AugmentedAssignmentExpression,
            215u16 => Type::TS26,
            216u16 => Type::TS27,
            217u16 => Type::SpreadElement,
            218u16 => Type::TernaryExpression,
            219u16 => Type::BinaryExpression,
            220u16 => Type::UnaryExpression,
            221u16 => Type::UpdateExpression,
            222u16 => Type::SequenceExpression,
            223u16 => Type::TemplateString,
            224u16 => Type::TemplateSubstitution,
            225u16 => Type::Regex,
            226u16 => Type::MetaProperty,
            227u16 => Type::Arguments,
            228u16 => Type::Decorator,
            229u16 => Type::ClassBody,
            230u16 => Type::FormalParameters,
            231u16 => Type::Pattern,
            232u16 => Type::RestPattern,
            233u16 => Type::MethodDefinition,
            234u16 => Type::Pair,
            235u16 => Type::PairPattern,
            236u16 => Type::TS28,
            237u16 => Type::ComputedPropertyName,
            238u16 => Type::PublicFieldDefinition,
            239u16 => Type::NonNullExpression,
            240u16 => Type::MethodSignature,
            241u16 => Type::AbstractMethodSignature,
            242u16 => Type::FunctionSignature,
            243u16 => Type::TypeAssertion,
            244u16 => Type::AsExpression,
            245u16 => Type::ImportRequireClause,
            246u16 => Type::ExtendsClause,
            247u16 => Type::ImplementsClause,
            248u16 => Type::AmbientDeclaration,
            249u16 => Type::AbstractClassDeclaration,
            250u16 => Type::InternalModule,
            251u16 => Type::TS29,
            252u16 => Type::ImportAlias,
            253u16 => Type::NestedTypeIdentifier,
            254u16 => Type::InterfaceDeclaration,
            255u16 => Type::ExtendsTypeClause,
            256u16 => Type::EnumDeclaration,
            257u16 => Type::EnumBody,
            258u16 => Type::EnumAssignment,
            259u16 => Type::TypeAliasDeclaration,
            260u16 => Type::AccessibilityModifier,
            261u16 => Type::OverrideModifier,
            262u16 => Type::RequiredParameter,
            263u16 => Type::OptionalParameter,
            264u16 => Type::TS30,
            265u16 => Type::OmittingTypeAnnotation,
            266u16 => Type::OptingTypeAnnotation,
            267u16 => Type::TypeAnnotation,
            268u16 => Type::TS31,
            269u16 => Type::OptionalType,
            270u16 => Type::RestType,
            271u16 => Type::TS32,
            272u16 => Type::ConstructorType,
            273u16 => Type::PrimaryType,
            274u16 => Type::TemplateType,
            275u16 => Type::TemplateLiteralType,
            276u16 => Type::InferType,
            277u16 => Type::ConditionalType,
            278u16 => Type::GenericType,
            279u16 => Type::TypePredicate,
            280u16 => Type::TypePredicateAnnotation,
            281u16 => Type::TypeQuery,
            282u16 => Type::IndexTypeQuery,
            283u16 => Type::LookupType,
            284u16 => Type::MappedTypeClause,
            285u16 => Type::LiteralType,
            286u16 => Type::ExistentialType,
            287u16 => Type::FlowMaybeType,
            288u16 => Type::ParenthesizedType,
            289u16 => Type::PredefinedType,
            290u16 => Type::TypeArguments,
            291u16 => Type::ObjectType,
            292u16 => Type::CallSignature,
            293u16 => Type::PropertySignature,
            294u16 => Type::TypeParameters,
            295u16 => Type::TypeParameter,
            296u16 => Type::DefaultType,
            297u16 => Type::Constraint,
            298u16 => Type::ConstructSignature,
            299u16 => Type::IndexSignature,
            300u16 => Type::ArrayType,
            301u16 => Type::TupleType,
            302u16 => Type::ReadonlyType,
            303u16 => Type::UnionType,
            304u16 => Type::IntersectionType,
            305u16 => Type::FunctionType,
            306u16 => Type::ProgramRepeat1,
            307u16 => Type::ExportStatementRepeat1,
            308u16 => Type::ExportClauseRepeat1,
            309u16 => Type::NamedImportsRepeat1,
            310u16 => Type::VariableDeclarationRepeat1,
            311u16 => Type::SwitchBodyRepeat1,
            312u16 => Type::ObjectRepeat1,
            313u16 => Type::ObjectPatternRepeat1,
            314u16 => Type::ArrayRepeat1,
            315u16 => Type::ArrayPatternRepeat1,
            316u16 => Type::StringRepeat1,
            317u16 => Type::StringRepeat2,
            318u16 => Type::TemplateStringRepeat1,
            319u16 => Type::ClassBodyRepeat1,
            320u16 => Type::FormalParametersRepeat1,
            321u16 => Type::ExtendsClauseRepeat1,
            322u16 => Type::ImplementsClauseRepeat1,
            323u16 => Type::ExtendsTypeClauseRepeat1,
            324u16 => Type::EnumBodyRepeat1,
            325u16 => Type::TemplateLiteralTypeRepeat1,
            326u16 => Type::ObjectTypeRepeat1,
            327u16 => Type::TypeParametersRepeat1,
            328u16 => Type::TupleTypeRepeat1,
            329u16 => Type::ImportSpecifier,
            330u16 => Type::NamespaceExport,
            331u16 => Type::PropertyIdentifier,
            332u16 => Type::ShorthandPropertyIdentifier,
            333u16 => Type::ShorthandPropertyIdentifierPattern,
            334u16 => Type::StatementIdentifier,
            335u16 => Type::ThisType,
            336u16 => Type::TypeIdentifier,
            337u16 => Type::Spaces,
            338u16 => Type::Directory,
            _ => Type::ERROR,
        }
    }

    /// Lookup of a kind by its display string. The grammar table provides no
    /// such lookup; the result is always empty.
    pub fn from_str(&self) -> (r: Option<Type>)
        ensures
            r is None,
    {
        None
    }

    /// The display string of this kind.
    #[verifier::rlimit(100)]
    pub fn to_str(&self) -> (r: &'static str)
        ensures
            r@ == str_of_type(*self),
    {
        match self {
            Type::End => "end",
            Type::Identifier => "identifier",
            Type::HashBangLine => "hash_bang_line",
            Type::Export => "export",
            Type::Star => "*",
            Type::Default => "default",
            Type::Type => "type",
            Type::Eq => "=",
            Type::As => "as",
            Type::Namespace => "namespace",
            Type::LBrace => "{",
            Type::Comma => ",",
            Type::RBrace => "}",
            Type::Typeof => "typeof",
            Type::Import => "import",
            Type::From => "from",
            Type::Var => "var",
            Type::Let => "let",
            Type::Const => "const",
            Type::Bang => "!",
            Type::Else => "else",
            Type::If => "if",
            Type::Switch => "switch",
            Type::For => "for",
            Type::LParen => "(",
            Type::RParen => ")",
            Type::Await => "await",
            Type::In => "in",
            Type::Of => "of",
            Type::While => "while",
            Type::Do => "do",
            Type::Try => "try",
            Type::With => "with",
            Type::Break => "break",
            Type::Continue => "continue",
            Type::Debugger => "debugger",
            Type::Return => "return",
            Type::Throw => "throw",
            Type::SemiColon => ";",
            Type::Colon => ":",
            Type::Case => "case",
            Type::Catch => "catch",
            Type::Finally => "finally",
            Type::Yield => "yield",
            Type::LBracket => "[",
            Type::RBracket => "]",
            Type::LT => "<",
            Type::GT => ">",
            Type::Slash => "/",
            Type::Dot => ".",
            Type::Class => "class",
            Type::Async => "async",
            Type::Function => "function",
            Type::TS0 => "=>",
            Type::TS1 => "?.",
            Type::New => "new",
            Type::PlusEq => "+=",
            Type::DashEq => "-=",
            Type::StarEq => "*=",
            Type::SlashEq => "/=",
            Type::PercentEq => "%=",
            Type::CaretEq => "^=",
            Type::AmpEq => "&=",
            Type::PipeEq => "|=",
            Type::GtGtEq => ">>=",
            Type::GtGtGtEq => ">>>=",
            Type::LtLtEq => "<<=",
            Type::TS2 => "**=",
            Type::TS3 => "&&=",
            Type::TS4 => "||=",
            Type::TS5 => "??=",
            Type::DotDotDot => "...",
            Type::AmpAmp => "&&",
            Type::PipePipe => "||",
            Type::GtGt => ">>",
            Type::GtGtGt => ">>>",
            Type::LtLt => "<<",
            Type::Amp => "&",
            Type::Caret => "^",
            Type::Pipe => "|",
            Type::Plus => "+",
            Type::Dash => "-",
            Type::Percent => "%",
            Type::TS6 => "**",
            Type::LTEq => "<=",
            Type::EqEq => "==",
            Type::TS7 => "===",
            Type::BangEq => "!=",
            Type::TS8 => "!==",
            Type::GTEq => ">=",
            Type::TS9 => "??",
            Type::Instanceof => "instanceof",
            Type::Tilde => "~",
            Type::Void => "void",
            Type::Delete => "delete",
            Type::PlusPlus => "++",
            Type::DashDash => "--",
            Type::TS10 => "\"",
            Type::TS11 => "'",
            Type::StringFragment => "string_fragment",
            Type::EscapeSequence => "escape_sequence",
            Type::Comment => "comment",
            Type::TS12 => "`",
            Type::TS13 => "${",
            Type::RegexPattern => "regex_pattern",
            Type::RegexFlags => "regex_flags",
            Type::Number => "number",
            Type::PrivatePropertyIdentifier => "private_property_identifier",
            Type::Target => "target",
            Type::This => "this",
            Type::Super => "super",
            Type::True => "true",
            Type::False => "false",
            Type::Null => "null",
            Type::Undefined => "undefined",
            Type::At => "@",
            Type::Static => "static",
            Type::Readonly => "readonly",
            Type::Get => "get",
            Type::SetKw => "set",
            Type::QMark => "?",
            Type::Declare => "declare",
            Type::Public => "public",
            Type::Private => "private",
            Type::Protected => "protected",
            Type::Override => "override",
            Type::Module => "module",
            Type::Any => "any",
            Type::Boolean => "boolean",
            Type::String => "string",
            Type::Symbol => "symbol",
            Type::Abstract => "abstract",
            Type::Require => "require",
            Type::Extends => "extends",
            Type::Implements => "implements",
            Type::Global => "global",
            Type::Interface => "interface",
            Type::Enum => "enum",
            Type::TS14 => "-?:",
            Type::TS15 => "?:",
            Type::Asserts => "asserts",
            Type::Infer => "infer",
            Type::Is => "is",
            Type::Keyof => "keyof",
            Type::Unknown => "unknown",
            Type::Never => "never",
            Type::Object => "object",
            Type::TS16 => "{|",
            Type::TS17 => "|}",
            Type::TS18 => "_automatic_semicolon",
            Type::TS19 => "_template_chars",
            Type::TS20 => "_function_signature_automatic_semicolon",
            Type::Program => "program",
            Type::ExportStatement => "export_statement",
            Type::ExportClause => "export_clause",
            Type::ExportSpecifier => "export_specifier",
            Type::Declaration => "declaration",
            Type::ImportStatement => "import_statement",
            Type::ImportClause => "import_clause",
            Type::TS21 => "_from_clause",
            Type::NamespaceImport => "namespace_import",
            Type::NamedImports => "named_imports",
            Type::ExpressionStatement => "expression_statement",
            Type::VariableDeclaration => "variable_declaration",
            Type::LexicalDeclaration => "lexical_declaration",
            Type::VariableDeclarator => "variable_declarator",
            Type::StatementBlock => "statement_block",
            Type::ElseClause => "else_clause",
            Type::IfStatement => "if_statement",
            Type::SwitchStatement => "switch_statement",
            Type::ForStatement => "for_statement",
            Type::ForInStatement => "for_in_statement",
            Type::TS22 => "_for_header",
            Type::WhileStatement => "while_statement",
            Type::DoStatement => "do_statement",
            Type::TryStatement => "try_statement",
            Type::WithStatement => "with_statement",
            Type::BreakStatement => "break_statement",
            Type::ContinueStatement => "continue_statement",
            Type::DebuggerStatement => "debugger_statement",
            Type::ReturnStatement => "return_statement",
            Type::ThrowStatement => "throw_statement",
            Type::EmptyStatement => "empty_statement",
            Type::LabeledStatement => "labeled_statement",
            Type::SwitchBody => "switch_body",
            Type::SwitchCase => "switch_case",
            Type::SwitchDefault => "switch_default",
            Type::CatchClause => "catch_clause",
            Type::FinallyClause => "finally_clause",
            Type::ParenthesizedExpression => "parenthesized_expression",
            Type::Expression => "expression",
            Type::PrimaryExpression => "primary_expression",
            Type::YieldExpression => "yield_expression",
            Type::ObjectPattern => "object_pattern",
            Type::AssignmentPattern => "assignment_pattern",
            Type::ObjectAssignmentPattern => "object_assignment_pattern",
            Type::Array => "array",
            Type::ArrayPattern => "array_pattern",
            Type::NestedIdentifier => "nested_identifier",
            Type::ClassDeclaration => "class_declaration",
            Type::ClassHeritage => "class_heritage",
            Type::FunctionDeclaration => "function_declaration",
            Type::GeneratorFunction => "generator_function",
            Type::GeneratorFunctionDeclaration => "generator_function_declaration",
            Type::ArrowFunction => "arrow_function",
            Type::TS23 => "_call_signature",
            Type::TS24 => "_formal_parameter",
            Type::CallExpression => "call_expression",
            Type::NewExpression => "new_expression",
            Type::AwaitExpression => "await_expression",
            Type::MemberExpression => "member_expression",
            Type::SubscriptExpression => "subscript_expression",
            Type::AssignmentExpression => "assignment_expression",
            Type::TS25 => "_augmented_assignment_lhs",
            Type::AugmentedAssignmentExpression => "augmented_assignment_expression",
            Type::TS26 => "_initializer",
            Type::TS27 => "_destructuring_pattern",
            Type::SpreadElement => "spread_element",
            Type::TernaryExpression => "ternary_expression",
            Type::BinaryExpression => "binary_expression",
            Type::UnaryExpression => "unary_expression",
            Type::UpdateExpression => "update_expression",
            Type::SequenceExpression => "sequence_expression",
            Type::TemplateString => "template_string",
            Type::TemplateSubstitution => "template_substitution",
            Type::Regex => "regex",
            Type::MetaProperty => "meta_property",
            Type::Arguments => "arguments",
            Type::Decorator => "decorator",
            Type::ClassBody => "class_body",
            Type::FormalParameters => "formal_parameters",
            Type::Pattern => "pattern",
            Type::RestPattern => "rest_pattern",
            Type::MethodDefinition => "method_definition",
            Type::Pair => "pair",
            Type::PairPattern => "pair_pattern",
            Type::TS28 => "_property_name",
            Type::ComputedPropertyName => "computed_property_name",
            Type::PublicFieldDefinition => "public_field_definition",
            Type::NonNullExpression => "non_null_expression",
            Type::MethodSignature => "method_signature",
            Type::AbstractMethodSignature => "abstract_method_signature",
            Type::FunctionSignature => "function_signature",
            Type::TypeAssertion => "type_assertion",
            Type::AsExpression => "as_expression",
            Type::ImportRequireClause => "import_require_clause",
            Type::ExtendsClause => "extends_clause",
            Type::ImplementsClause => "implements_clause",
            Type::AmbientDeclaration => "ambient_declaration",
            Type::AbstractClassDeclaration => "abstract_class_declaration",
            Type::InternalModule => "internal_module",
            Type::TS29 => "_module",
            Type::ImportAlias => "import_alias",
            Type::NestedTypeIdentifier => "nested_type_identifier",
            Type::InterfaceDeclaration => "interface_declaration",
            Type::ExtendsTypeClause => "extends_type_clause",
            Type::EnumDeclaration => "enum_declaration",
            Type::EnumBody => "enum_body",
            Type::EnumAssignment => "enum_assignment",
            Type::TypeAliasDeclaration => "type_alias_declaration",
            Type::AccessibilityModifier => "accessibility_modifier",
            Type::OverrideModifier => "override_modifier",
            Type::RequiredParameter => "required_parameter",
            Type::OptionalParameter => "optional_parameter",
            Type::TS30 => "_parameter_name",
            Type::OmittingTypeAnnotation => "omitting_type_annotation",
            Type::OptingTypeAnnotation => "opting_type_annotation",
            Type::TypeAnnotation => "type_annotation",
            Type::TS31 => "_type",
            Type::OptionalType => "optional_type",
            Type::RestType => "rest_type",
            Type::TS32 => "_tuple_type_member",
            Type::ConstructorType => "constructor_type",
            Type::PrimaryType => "_primary_type",
            Type::TemplateType => "template_type",
            Type::TemplateLiteralType => "template_literal_type",
            Type::InferType => "infer_type",
            Type::ConditionalType => "conditional_type",
            Type::GenericType => "generic_type",
            Type::TypePredicate => "type_predicate",
            Type::TypePredicateAnnotation => "type_predicate_annotation",
            Type::TypeQuery => "type_query",
            Type::IndexTypeQuery => "index_type_query",
            Type::LookupType => "lookup_type",
            Type::MappedTypeClause => "mapped_type_clause",
            Type::LiteralType => "literal_type",
            Type::ExistentialType => "existential_type",
            Type::FlowMaybeType => "flow_maybe_type",
            Type::ParenthesizedType => "parenthesized_type",
            Type::PredefinedType => "predefined_type",
            Type::TypeArguments => "type_arguments",
            Type::ObjectType => "object_type",
            Type::CallSignature => "call_signature",
            Type::PropertySignature => "property_signature",
            Type::TypeParameters => "type_parameters",
            Type::TypeParameter => "type_parameter",
            Type::DefaultType => "default_type",
            Type::Constraint => "constraint",
            Type::ConstructSignature => "construct_signature",
            Type::IndexSignature => "index_signature",
            Type::ArrayType => "array_type",
            Type::TupleType => "tuple_type",
            Type::ReadonlyType => "readonly_type",
            Type::UnionType => "union_type",
            Type::IntersectionType => "intersection_type",
            Type::FunctionType => "function_type",
            Type::ProgramRepeat1 => "program_repeat1",
            Type::ExportStatementRepeat1 => "export_statement_repeat1",
            Type::ExportClauseRepeat1 => "export_clause_repeat1",
            Type::NamedImportsRepeat1 => "named_imports_repeat1",
            Type::VariableDeclarationRepeat1 => "variable_declaration_repeat1",
            Type::SwitchBodyRepeat1 => "switch_body_repeat1",
            Type::ObjectRepeat1 => "object_repeat1",
            Type::ObjectPatternRepeat1 => "object_pattern_repeat1",
            Type::ArrayRepeat1 => "array_repeat1",
            Type::ArrayPatternRepeat1 => "array_pattern_repeat1",
            Type::StringRepeat1 => "string_repeat1",
            Type::StringRepeat2 => "string_repeat2",
            Type::TemplateStringRepeat1 => "template_string_repeat1",
            Type::ClassBodyRepeat1 => "class_body_repeat1",
            Type::FormalParametersRepeat1 => "formal_parameters_repeat1",
            Type::ExtendsClauseRepeat1 => "extends_clause_repeat1",
            Type::ImplementsClauseRepeat1 => "implements_clause_repeat1",
            Type::ExtendsTypeClauseRepeat1 => "extends_type_clause_repeat1",
            Type::EnumBodyRepeat1 => "enum_body_repeat1",
            Type::TemplateLiteralTypeRepeat1 => "template_literal_type_repeat1",
            Type::ObjectTypeRepeat1 => "object_type_repeat1",
            Type::TypeParametersRepeat1 => "type_parameters_repeat1",
            Type::TupleTypeRepeat1 => "tuple_type_repeat1",
            Type::ImportSpecifier => "import_specifier",
            Type::NamespaceExport => "namespace_export",
            Type::PropertyIdentifier => "property_identifier",
            Type::ShorthandPropertyIdentifier => "shorthand_property_identifier",
            Type::ShorthandPropertyIdentifierPattern => "shorthand_property_identifier_pattern",
            Type::StatementIdentifier => "statement_identifier",
            Type::ThisType => "this_type",
            Type::TypeIdentifier => "type_identifier",
            Type::Spaces => "Spaces",
            Type::Directory => "Directory",
            Type::ERROR => "ERROR",
        }
    }

    /// The canonical number of this kind; computes `u16_of_type`.
    #[verifier::rlimit(100)]
    pub fn canonical_u16(&self) -> (r: u16)
        ensures
            r == u16_of_type(*self),
            r < COUNT,
    {
        match self {
            Type::End => 0,
            Type::Identifier => 1,
            Type::HashBangLine => 2,
            Type::Export => 3,
            Type::Star => 4,
            Type::Default => 5,
            Type::Type => 6,
            Type::Eq => 7,
            Type::As => 8,
            Type::Namespace => 9,
            Type::LBrace => 10,
            Type::Comma => 11,
            Type::RBrace => 12,
            Type::Typeof => 13,
            Type::Import => 14,
            Type::From => 15,
            Type::Var => 16,
            Type::Let => 17,
            Type::Const => 18,
            Type::Bang => 19,
            Type::Else => 20,
            Type::If => 21,
            Type::Switch => 22,
            Type::For => 23,
            Type::LParen => 24,
            Type::RParen => 25,
            Type::Await => 26,
            Type::In => 27,
            Type::Of => 28,
            Type::While => 29,
            Type::Do => 30,
            Type::Try => 31,
            Type::With => 32,
            Type::Break => 33,
            Type::Continue => 34,
            Type::Debugger => 35,
            Type::Return => 36,
            Type::Throw => 37,
            Type::SemiColon => 38,
            Type::Colon => 39,
            Type::Case => 40,
            Type::Catch => 41,
            Type::Finally => 42,
            Type::Yield => 43,
            Type::LBracket => 44,
            Type::RBracket => 45,
            Type::LT => 46,
            Type::GT => 47,
            Type::Slash => 48,
            Type::Dot => 49,
            Type::Class => 50,
            Type::Async => 51,
            Type::Function => 52,
            Type::TS0 => 53,
            Type::TS1 => 54,
            Type::New => 55,
            Type::PlusEq => 56,
            Type::DashEq => 57,
            Type::StarEq => 58,
            Type::SlashEq => 59,
            Type::PercentEq => 60,
            Type::CaretEq => 61,
            Type::AmpEq => 62,
            Type::PipeEq => 63,
            Type::GtGtEq => 64,
            Type::GtGtGtEq => 65,
            Type::LtLtEq => 66,
            Type::TS2 => 67,
            Type::TS3 => 68,
            Type::TS4 => 69,
            Type::TS5 => 70,
            Type::DotDotDot => 71,
            Type::AmpAmp => 72,
            Type::PipePipe => 73,
            Type::GtGt => 74,
            Type::GtGtGt => 75,
            Type::LtLt => 76,
            Type::Amp => 77,
            Type::Caret => 78,
            Type::Pipe => 79,
            Type::Plus => 80,
            Type::Dash => 81,
            Type::Percent => 82,
            Type::TS6 => 83,
            Type::LTEq => 84,
            Type::EqEq => 85,
            Type::TS7 => 86,
            Type::BangEq => 87,
            Type::TS8 => 88,
            Type::GTEq => 89,
            Type::TS9 => 90,
            Type::Instanceof => 91,
            Type::Tilde => 92,
            Type::Void => 93,
            Type::Delete => 94,
            Type::PlusPlus => 95,
            Type::DashDash => 96,
            Type::TS10 => 97,
            Type::TS11 => 98,
            Type::StringFragment => 99,
            Type::EscapeSequence => 100,
            Type::Comment => 101,
            Type::TS12 => 102,
            Type::TS13 => 103,
            Type::RegexPattern => 104,
            Type::RegexFlags => 105,
            Type::Number => 106,
            Type::PrivatePropertyIdentifier => 107,
            Type::Target => 108,
            Type::This => 109,
            Type::Super => 110,
            Type::True => 111,
            Type::False => 112,
            Type::Null => 113,
            Type::Undefined => 114,
            Type::At => 115,
            Type::Static => 116,
            Type::Readonly => 117,
            Type::Get => 118,
            Type::SetKw => 119,
            Type::QMark => 120,
            Type::Declare => 121,
            Type::Public => 122,
            Type::Private => 123,
            Type::Protected => 124,
            Type::Override => 125,
            Type::Module => 126,
            Type::Any => 127,
            Type::Boolean => 128,
            Type::String => 129,
            Type::Symbol => 130,
            Type::Abstract => 131,
            Type::Require => 132,
            Type::Extends => 133,
            Type::Implements => 134,
            Type::Global => 135,
            Type::Interface => 136,
            Type::Enum => 137,
            Type::TS14 => 138,
            Type::TS15 => 139,
            Type::Asserts => 140,
            Type::Infer => 141,
            Type::Is => 142,
            Type::Keyof => 143,
            Type::Unknown => 144,
            Type::Never => 145,
            Type::Object => 146,
            Type::TS16 => 147,
            Type::TS17 => 148,
            Type::TS18 => 149,
            Type::TS19 => 150,
            Type::TS20 => 151,
            Type::Program => 152,
            Type::ExportStatement => 153,
            Type::ExportClause => 154,
            Type::ExportSpecifier => 155,
            Type::Declaration => 156,
            Type::ImportStatement => 157,
            Type::ImportClause => 158,
            Type::TS21 => 159,
            Type::NamespaceImport => 160,
            Type::NamedImports => 161,
            Type::ExpressionStatement => 162,
            Type::VariableDeclaration => 163,
            Type::LexicalDeclaration => 164,
            Type::VariableDeclarator => 165,
            Type::StatementBlock => 166,
            Type::ElseClause => 167,
            Type::IfStatement => 168,
            Type::SwitchStatement => 169,
            Type::ForStatement => 170,
            Type::ForInStatement => 171,
            Type::TS22 => 172,
            Type::WhileStatement => 173,
            Type::DoStatement => 174,
            Type::TryStatement => 175,
            Type::WithStatement => 176,
            Type::BreakStatement => 177,
            Type::ContinueStatement => 178,
            Type::DebuggerStatement => 179,
            Type::ReturnStatement => 180,
            Type::ThrowStatement => 181,
            Type::EmptyStatement => 182,
            Type::LabeledStatement => 183,
            Type::SwitchBody => 184,
            Type::SwitchCase => 185,
            Type::SwitchDefault => 186,
            Type::CatchClause => 187,
            Type::FinallyClause => 188,
            Type::ParenthesizedExpression => 189,
            Type::Expression => 190,
            Type::PrimaryExpression => 191,
            Type::YieldExpression => 192,
            Type::ObjectPattern => 193,
            Type::AssignmentPattern => 194,
            Type::ObjectAssignmentPattern => 195,
            Type::Array => 196,
            Type::ArrayPattern => 197,
            Type::NestedIdentifier => 198,
            Type::ClassDeclaration => 199,
            Type::ClassHeritage => 200,
            Type::FunctionDeclaration => 201,
            Type::GeneratorFunction => 202,
            Type::GeneratorFunctionDeclaration => 203,
            Type::ArrowFunction => 204,
            Type::TS23 => 205,
            Type::TS24 => 206,
            Type::CallExpression => 207,
            Type::NewExpression => 208,
            Type::AwaitExpression => 209,
            Type::MemberExpression => 210,
            Type::SubscriptExpression => 211,
            Type::AssignmentExpression => 212,
            Type::TS25 => 213,
            Type::AugmentedAssignmentExpression => 214,
            Type::TS26 => 215,
            Type::TS27 => 216,
            Type::SpreadElement => 217,
            Type::TernaryExpression => 218,
            Type::BinaryExpression => 219,
            Type::UnaryExpression => 220,
            Type::UpdateExpression => 221,
            Type::SequenceExpression => 222,
            Type::TemplateString => 223,
            Type::TemplateSubstitution => 224,
            Type::Regex => 225,
            Type::MetaProperty => 226,
            Type::Arguments => 227,
            Type::Decorator => 228,
            Type::ClassBody => 229,
            Type::FormalParameters => 230,
            Type::Pattern => 231,
            Type::RestPattern => 232,
            Type::MethodDefinition => 233,
            Type::Pair => 234,
            Type::PairPattern => 235,
            Type::TS28 => 236,
            Type::ComputedPropertyName => 237,
            Type::PublicFieldDefinition => 238,
            Type::NonNullExpression => 239,
            Type::MethodSignature => 240,
            Type::AbstractMethodSignature => 241,
            Type::FunctionSignature => 242,
            Type::TypeAssertion => 243,
            Type::AsExpression => 244,
            Type::ImportRequireClause => 245,
            Type::ExtendsClause => 246,
            Type::ImplementsClause => 247,
            Type::AmbientDeclaration => 248,
            Type::AbstractClassDeclaration => 249,
            Type::InternalModule => 250,
            Type::TS29 => 251,
            Type::ImportAlias => 252,
            Type::NestedTypeIdentifier => 253,
            Type::InterfaceDeclaration => 254,
            Type::ExtendsTypeClause => 255,
            Type::EnumDeclaration => 256,
            Type::EnumBody => 257,
            Type::EnumAssignment => 258,
            Type::TypeAliasDeclaration => 259,
            Type::AccessibilityModifier => 260,
            Type::OverrideModifier => 261,
            Type::RequiredParameter => 262,
            Type::OptionalParameter => 263,
            Type::TS30 => 264,
            Type::OmittingTypeAnnotation => 265,
            Type::OptingTypeAnnotation => 266,
            Type::TypeAnnotation => 267,
            Type::TS31 => 268,
            Type::OptionalType => 269,
            Type::RestType => 270,
            Type::TS32 => 271,
            Type::ConstructorType => 272,
            Type::PrimaryType => 273,
            Type::TemplateType => 274,
            Type::TemplateLiteralType => 275,
            Type::InferType => 276,
            Type::ConditionalType => 277,
            Type::GenericType => 278,
            Type::TypePredicate => 279,
            Type::TypePredicateAnnotation => 280,
            Type::TypeQuery => 281,
            Type::IndexTypeQuery => 282,
            Type::LookupType => 283,
            Type::MappedTypeClause => 284,
            Type::LiteralType => 285,
            Type::ExistentialType => 286,
            Type::FlowMaybeType => 287,
            Type::ParenthesizedType => 288,
            Type::PredefinedType => 289,
            Type::TypeArguments => 290,
            Type::ObjectType => 291,
            Type::CallSignature => 292,
            Type::PropertySignature => 293,
            Type::TypeParameters => 294,
            Type::TypeParameter => 295,
            Type::DefaultType => 296,
            Type::Constraint => 297,
            Type::ConstructSignature => 298,
            Type::IndexSignature => 299,
            Type::ArrayType => 300,
            Type::TupleType => 301,
            Type::ReadonlyType => 302,
            Type::UnionType => 303,
            Type::IntersectionType => 304,
            Type::FunctionType => 305,
            Type::ProgramRepeat1 => 306,
            Type::ExportStatementRepeat1 => 307,
            Type::ExportClauseRepeat1 => 308,
            Type::NamedImportsRepeat1 => 309,
            Type::VariableDeclarationRepeat1 => 310,
            Type::SwitchBodyRepeat1 => 311,
            Type::ObjectRepeat1 => 312,
            Type::ObjectPatternRepeat1 => 313,
            Type::ArrayRepeat1 => 314,
            Type::ArrayPatternRepeat1 => 315,
            Type::StringRepeat1 => 316,
            Type::StringRepeat2 => 317,
            Type::TemplateStringRepeat1 => 318,
            Type::ClassBodyRepeat1 => 319,
            Type::FormalParametersRepeat1 => 320,
            Type::ExtendsClauseRepeat1 => 321,
            Type::ImplementsClauseRepeat1 => 322,
            Type::ExtendsTypeClauseRepeat1 => 323,
            Type::EnumBodyRepeat1 => 324,
            Type::TemplateLiteralTypeRepeat1 => 325,
            Type::ObjectTypeRepeat1 => 326,
            Type::TypeParametersRepeat1 => 327,
            Type::TupleTypeRepeat1 => 328,
            Type::ImportSpecifier => 329,
            Type::NamespaceExport => 330,
            Type::PropertyIdentifier => 331,
            Type::ShorthandPropertyIdentifier => 332,
            Type::ShorthandPropertyIdentifierPattern => 333,
            Type::StatementIdentifier => 334,
            Type::ThisType => 335,
            Type::TypeIdentifier => 336,
            Type::Spaces => 337,
            Type::Directory => 338,
            Type::ERROR => 339,
        }
    }
}

} // verus!
