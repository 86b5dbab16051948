[package]
name = "starlight_axum"
version = "0.1.0"
edition = "2021"
publish = false

[dependencies]
ansi_term = "=0.12.1"
async-trait = "0.1"
axum = "=0.8.9"
headers = "0.4"
http-body-util = "0.1"
opentelemetry = "=0.30.0"
opentelemetry-appender-tracing = "0.30"
opentelemetry-http = "0.30"
opentelemetry-otlp = { version = "0.30", default-features = false, features = ["grpc-tonic", "trace", "metrics", "logs"] }
opentelemetry_sdk = { version = "=0.30.0", features = ["trace", "metrics", "logs"] }
opentelemetry-semantic-conventions = { version = "0.30", features = ["semconv_experimental"] }
time = { version = "=0.3.55", features = ["formatting", "parsing"] }
time-tz = { version = "2", features = ["system"] }
tokio = { version = "1", features = ["rt", "sync"] }
tower = { version = "0.5", features = ["util"] }
tower-http = { version = "=0.6.11", features = ["normalize-path", "request-id", "trace", "util"] }
tower-otel-http-metrics = "=0.16.0"
tracing = "0.1"
tracing-appender = "0.2"
tracing-opentelemetry = { version = "0.31", features = ["metrics"] }
tracing-subscriber = { version = "0.3", features = ["env-filter", "fmt", "registry"] }
