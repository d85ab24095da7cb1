# rust_x_arduino

Firmware core of a small two-wheeled robot on an Arduino Uno (ATmega328P):
two motors on an H-bridge, wheel encoders, a servo, an ultrasonic range
finder, an NEC infrared receiver and a 16x2 display.

- `src/` is the verified library. Every decision and computation of the
  firmware stands there with its contract: the timer-0 clock kept by the
  overflow interrupt (`timing::millis`), the PWM outputs of timer 0
  (`timing::pwm`), the motors (`movement`), the encoder counters
  (`movement::counters`), the servo (`servo`), the range finder's
  measurement (`echo`), the infrared clock and command mailbox
  (`infrared`), the display's byte encoding (`screen`) and the
  distance-keeping controller (`spring`). Hardware types do not appear in
  it: each type holds, as plain values, what the firmware writes to its
  registers and pins.
- `app/` is the firmware around it: the interrupt handlers, the register
  and pin access through `arduino-hal` and `avr-device`, the display
  driver, and the main loop. It targets the AVR and builds only with the
  avr-hal toolchain.
- `tests/` exercises the library on the host.
