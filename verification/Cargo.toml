[package]
name = "analog3"
version = "0.1.0"
edition = "2021"
publish = false

[dependencies]
embassy-time = { version = "*", features = ["std"] }
embassy-executor = { version = "*", features = ["arch-std", "executor-thread"] }
embassy-stm32 = { version = "*", features = ["stm32g0b1re"] }
defmt = "*"
