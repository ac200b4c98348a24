//! The template modules, one per feature.

use vstd::prelude::*;

verus! {

/// The module every other one builds on.
pub const CORE_FUNCTIONS: &'static str = "// Shared helpers of crabSafe.\nexport type Fn<A, B> = (value: A) => B;\n\nexport function panic(message: string): never {\n    throw new Error(message);\n}\n\nexport function identity<T>(value: T): T {\n    return value;\n}\n";

/// A short tour of the other modules.
pub const EXAMPLE: &'static str = "import { Option, some, none } from \"./option.ts\";\nimport { Result, ok, err } from \"./result.ts\";\n\nexport function firstChar(text: string): Option<string> {\n    return text.length > 0 ? some(text[0]) : none();\n}\n\nexport function half(n: number): Result<number, string> {\n    return n % 2 === 0 ? ok(n / 2) : err(\"odd\");\n}\n";

/// A value that may be absent.
pub const OPTION: &'static str = "import { panic } from \"./core.ts\";\n\nexport type Option<T> = { kind: \"some\"; value: T } | { kind: \"none\" };\n\nexport function some<T>(value: T): Option<T> {\n    return { kind: \"some\", value };\n}\n\nexport function none<T>(): Option<T> {\n    return { kind: \"none\" };\n}\n\nexport function unwrap<T>(option: Option<T>): T {\n    return option.kind === \"some\" ? option.value : panic(\"unwrap on none\");\n}\n";

/// Parsers for text read from files; needs the Deno runtime.
pub const PARSERS: &'static str = "import { parse } from \"https://deno.land/std/encoding/toml.ts\";\nimport { Result, ok, err } from \"./result.ts\";\n\nexport function parseToml(text: string): Result<Record<string, unknown>, string> {\n    try {\n        return ok(parse(text));\n    } catch (e) {\n        return err(String(e));\n    }\n}\n\nexport async function readToml(path: string): Promise<Result<Record<string, unknown>, string>> {\n    return parseToml(await Deno.readTextFile(path));\n}\n";

/// A value or the error that stood in its way.
pub const RESULT: &'static str = "import { panic } from \"./core.ts\";\n\nexport type Result<T, E> = { kind: \"ok\"; value: T } | { kind: \"err\"; error: E };\n\nexport function ok<T, E>(value: T): Result<T, E> {\n    return { kind: \"ok\", value };\n}\n\nexport function err<T, E>(error: E): Result<T, E> {\n    return { kind: \"err\", error };\n}\n\nexport function expect<T, E>(result: Result<T, E>, message: string): T {\n    return result.kind === \"ok\" ? result.value : panic(message);\n}\n";

} // verus!
