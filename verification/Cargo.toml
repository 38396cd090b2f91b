[package]
name = "redis_logger"
version = "0.1.0"
edition = "2021"
publish = false

[dependencies]
redis = "*"
serde_json = "*"
log = "*"
simplelog = "*"
serializable_log_record = "*"
