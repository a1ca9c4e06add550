[package]
name = "gstplugins"
version = "0.1.0"
edition = "2021"
publish = false

[dependencies]
anes = "=0.2.1"
plotters = { version = "=0.3.7", default-features = false }
spectrum-analyzer = "=2.0.0"
byte-slice-cast = "=1.2.3"
once_cell = "=1.21.4"
thiserror = "=2.0.21"
