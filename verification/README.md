# nusb (Windows back end, verified core)

`src/` is a Verus library: driver selection by service name, the libusb0.sys
control codes and request layout, the IOCTLs of each operation, the control
transfer plan, and the decisions taken on what the operating system returns.

`app/` performs the Win32 and WinUSB calls on raw handles with the values the
library builds, and holds the control-transfer futures.

`tests/` runs the library on concrete values.
