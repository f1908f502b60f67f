[package]
name = "noelv"
version = "0.1.0"
edition = "2021"
publish = false

[dependencies]
arbitrary-int = "*"
bitbybit = "*"
critical-section = "*"
defmt = "*"
derive-mmio = "*"
embassy-executor = "*"
embassy-time = "*"
embassy-time-driver = "*"
embassy-time-queue-utils = "*"
embedded-hal = "*"
embedded-io = "*"
libm = "*"
log = "*"
once_cell = "*"
portable-atomic = "*"
riscv = "*"
riscv-rt = "*"
static_assertions = "*"
