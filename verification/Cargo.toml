[package]
name = "gitmoji_prompts"
version = "0.1.0"
edition = "2021"
publish = false

[dependencies]
dialoguer = "=0.5.1"
enquirer = "=0.2.0"
json = "=0.12.4"
