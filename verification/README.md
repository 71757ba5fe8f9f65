# analog3

Verified core of the analog board firmware.

- `src/mcp47x6.rs`: the MCP47x6 DAC driver's command encoding (device
  addresses, the "write volatile memory" configuration command and the fast
  write command), with the bit layouts proved.
- `src/utils.rs`: the back-off blinker for indicator LEDs, a small state
  machine whose steps are proved against a plain model (`BlinkerState`); time
  comes from `embassy-time`, randomness from a `RandomSource` of the caller.
- `app/`: the firmware entry point and the I2C transfers, which hand the
  verified command bytes to the `embassy-stm32` I2C peripheral.
