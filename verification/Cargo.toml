[package]
name = "flightsql_slt"
version = "0.1.0"
edition = "2021"
publish = false

[dependencies]
arrow = "=60.0.0"
arrow-flight = { version = "=60.0.0", features = ["flight-sql"] }
async-trait = "=0.1.92"
bigdecimal = "=0.4.11"
futures = "=0.3.34"
half = "=2.7.1"
sqllogictest = "=0.29.1"
thiserror = "=2.0.21"
tonic = "=0.14.6"
