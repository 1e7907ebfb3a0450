# rppal

Access to the Raspberry Pi's GPIO, I2C, PWM, SPI and UART peripherals, with
the decisions and computations behind them verified by Verus.

- `src/` is the verified library: model identification from the system
  files, GPIO register arithmetic, pin ownership and restoration, interrupt
  bookkeeping, software PWM timing, sysfs text and permission rules, I2C/SMBus
  buffers and address checks, SPI mode bits and transfer segments, UART
  terminal flags and line speeds, and the `ioctl` request numbers.
- `tests/` exercises the library on concrete values.
- `app/` is the Linux I/O around it: reading the system files, mapping the
  GPIO registers, the character device, sysfs and `ioctl` calls, worker
  threads, and the `embedded-hal` traits.
