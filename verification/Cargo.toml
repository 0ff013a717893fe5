[package]
name = "urbit_chatbot_framework"
version = "0.1.0"
edition = "2021"
publish = false

[dependencies]
json = "*"
urbit-http-api = "*"
