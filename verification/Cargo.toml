[package]
name = "erc20"
version = "0.1.0"
edition = "2021"
publish = false

[dependencies]
ink_allocator = { version = "=3.0.0-rc5" }
ink_env = { version = "=3.0.0-rc5" }
ink_lang = { version = "=3.0.0-rc5" }
ink_lang_codegen = { version = "=3.0.0-rc5" }
ink_lang_ir = { version = "=3.0.0-rc5" }
ink_lang_macro = { version = "=3.0.0-rc5" }
ink_metadata = { version = "=3.0.0-rc5" }
ink_prelude = { version = "=3.0.0-rc5" }
ink_primitives = { version = "=3.0.0-rc5" }
ink_storage = { version = "=3.0.0-rc5" }
ink_storage_derive = { version = "=3.0.0-rc5" }
parity-scale-codec = { version = "2", features = ["derive"] }
