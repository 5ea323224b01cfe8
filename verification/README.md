# SpamBayes Outlook add-in

The logic of the SpamBayes add-in for Microsoft Outlook, written and proved in Verus: the counters
and their saving, notification sounds, registration, ribbon, the hook into Outlook's
synchronisation, the help texts and dialogs, and the state of every window of the manager.

- `src/` is the verified library. Windows, files, threads, COM objects and the mail store do not
  occur in it: each part is a state with functions that take an event or the outcome of an outside
  operation and say what is to be shown, saved or done next.
- `app/` is the add-in around it: the toolkit's widgets, Win32 dialogs, COM entry points, the
  statistics file and the log. It builds on Windows. Classifier, mail access and settings files
  come from other parts of the add-in, behind the traits in `app/host.rs`.
- `tests/` runs the library on concrete values.

Floating point numbers are held as their bits (`double.rs`); comparing, clamping and scaling them is
integer arithmetic that is proved against their values, and texts of numbers come from `app/`.

Three functions of the standard library are used on trust: `String::push`, `char::is_whitespace`
and `char::from_u32`.
